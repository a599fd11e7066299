use record_screen::windows::audio::mix_pcm;
use record_screen::windows::audio::{try_mix_audio_packets, WindowsWasapiAudioPacket};
use std::collections::VecDeque;
use record_screen::windows::audio::{silent_audio_packet, worker_start_error, audio_flush_mode, AudioFlushMode};
use record_screen::windows::capture::{normalized_sample_time, recording_outcome};
use record_screen::capture::{
    AudioInputKind, AudioInputOption, CaptureError, RecordingOptions, CUSTOM_REGION_TARGET_ID, DEFAULT_AUDIO_INPUT_ID,
    FULL_DESKTOP_TARGET_ID,
};
use record_screen::windows::audio::{
    build_route_plan, build_runtime_intent, build_runtime_plan, bytes_per_frame, capture_endpoint_score,
    ensure_mix_compatible_foundations, packet_timing, parse_endpoint_report, render_endpoint_score,
    runtime_foundation as audio_runtime_foundation, runtime_summary, select_capture_endpoint, select_render_endpoint,
    selectable_audio_inputs, smoke_lifecycle as audio_smoke_lifecycle, start_plan, WindowsWasapiClientFoundation,
    WindowsWasapiPacketStats,
};
use record_screen::windows::capture::{
    display_ordinal, encoder_crop_rect_from_source, encoder_video_size_from_source, execution_plan,
    list_capture_targets, native_recording_unsupported_reason, normalize_encoder_dimension, preview_target_bounds,
    resolve_full_desktop_target, resolve_target, CropRect, MonitorDescriptor, WindowDescriptor,
};
use record_screen::windows::encoder::{frame_duration_100ns, output_plan, pack_u32_pair, sample_bridge_plan};
use record_screen::windows::{audio_input_support_summary, list_audio_inputs, system_audio_support_summary};

const MONITOR_TARGET_PREFIX: &str = "monitor:";

fn recording_options(capture_target_id: &str) -> RecordingOptions {
    RecordingOptions {
        output_path: "windows-native-test.mp4".to_string(),
        quality_preset: "1080p / 30 fps".to_string(),
        mic_enabled: false,
        system_audio_enabled: false,
        capture_target_id: capture_target_id.to_string(),
        audio_input_id: DEFAULT_AUDIO_INPUT_ID.to_string(),
        portal_parent_window: None,
        portal_restore_token: None,
        region_x: 0,
        region_y: 0,
        region_width: 640,
        region_height: 360,
        region_source_capture_target_id: format!("{MONITOR_TARGET_PREFIX}DISPLAY1"),
        region_source_origin_x: 0,
        region_source_origin_y: 0,
        region_source_scale_factor_milli: 1000,
    }
}

fn encoder_options() -> RecordingOptions {
    RecordingOptions {
        output_path: "/tmp/record-screen-test.mp4".to_string(),
        quality_preset: "1080p / 30 fps".to_string(),
        mic_enabled: false,
        system_audio_enabled: false,
        capture_target_id: "full-desktop".to_string(),
        audio_input_id: "default".to_string(),
        portal_parent_window: None,
        portal_restore_token: None,
        region_x: 0,
        region_y: 0,
        region_width: 0,
        region_height: 0,
        region_source_capture_target_id: "full-desktop".to_string(),
        region_source_origin_x: 0,
        region_source_origin_y: 0,
        region_source_scale_factor_milli: 1000,
    }
}

fn monitor(name: &str, x: i32, y: i32, width: u32, height: u32) -> MonitorDescriptor {
    MonitorDescriptor {
        device_name: name.to_string(),
        label: format!("Display {name}"),
        width,
        height,
        x,
        y,
        primary: x == 0 && y == 0,
    }
}

const SINGLE_ROUTE_REPORT: &str = "
DEFAULT::USB Microphone
CAPTURE	USBMIC-DEVICE	USB Microphone
RENDER	REALTEK-SPK	Speakers (Realtek Audio)
";

#[test]
fn parses_windows_audio_endpoint_report() {
    let stdout = r#"
DEFAULT::USB Microphone
CAPTURE	USB\\VID_1234&PID_5678	Microphone Array
CAPTURE	LINEIN-DEVICE	Line In
RENDER	REALTEK-SPK	Speakers (Realtek Audio)
RENDER	USB-DAC	Headphones (USB DAC)
"#;

    let report = parse_endpoint_report(stdout).expect("report should parse");
    assert_eq!(report.default_input_name.as_deref(), Some("USB Microphone"));
    assert_eq!(report.capture_endpoints.len(), 2);
    assert_eq!(report.render_endpoints.len(), 2);
    assert_eq!(report.capture_endpoints[0].instance_id, "USB\\\\VID_1234&PID_5678");
    assert_eq!(report.capture_endpoints[0].label, "Microphone Array");
}

#[test]
fn ignores_empty_endpoint_report() {
    assert!(parse_endpoint_report("").is_none());
    assert!(parse_endpoint_report("noise").is_none());
}

#[test]
fn prefers_default_capture_endpoint_when_present() {
    let stdout = r#"
DEFAULT::USB Microphone
CAPTURE	LINEIN-DEVICE	Line In
CAPTURE	USBMIC-DEVICE	USB Microphone
RENDER	REALTEK-SPK	Speakers (Realtek Audio)
"#;

    let report = parse_endpoint_report(stdout).expect("report should parse");
    assert_eq!(
        select_capture_endpoint(&report).map(|endpoint| endpoint.label.as_str()),
        Some("USB Microphone")
    );
}

#[test]
fn prefers_speakers_for_render_loopback_candidate() {
    let stdout = r#"
RENDER	USB-DAC	Headphones (USB DAC)
RENDER	REALTEK-SPK	Speakers (Realtek Audio)
"#;

    let report = parse_endpoint_report(stdout).expect("report should parse");
    assert_eq!(
        select_render_endpoint(&report).map(|endpoint| endpoint.label.as_str()),
        Some("Speakers (Realtek Audio)")
    );
}

#[test]
fn builds_runtime_plan_from_endpoint_report() {
    let report = parse_endpoint_report(SINGLE_ROUTE_REPORT).expect("report should parse");
    let plan = build_runtime_plan(&report);
    assert_eq!(plan.default_input_name.as_deref(), Some("USB Microphone"));
    assert_eq!(plan.capture_endpoint_count, 1);
    assert_eq!(plan.render_endpoint_count, 1);
    assert_eq!(
        plan.preferred_capture_endpoint.as_ref().map(|endpoint| endpoint.label.as_str()),
        Some("USB Microphone")
    );
    assert_eq!(
        plan.preferred_render_endpoint.as_ref().map(|endpoint| endpoint.label.as_str()),
        Some("Speakers (Realtek Audio)")
    );
}

#[test]
fn builds_route_plan_from_runtime_plan() {
    let report = parse_endpoint_report(SINGLE_ROUTE_REPORT).expect("report should parse");
    let runtime_plan = build_runtime_plan(&report);
    let route_plan = build_route_plan(&runtime_plan);
    assert_eq!(route_plan.default_input_label.as_deref(), Some("USB Microphone"));
    assert!(route_plan.default_input_note.contains("preferred Windows capture candidate"));
    assert_eq!(route_plan.preferred_loopback_label.as_deref(), Some("Speakers (Realtek Audio)"));
    assert!(route_plan.has_loopback_candidate);
}

#[test]
fn builds_runtime_intent_from_route_plan() {
    let report = parse_endpoint_report(SINGLE_ROUTE_REPORT).expect("report should parse");
    let runtime_plan = build_runtime_plan(&report);
    let route_plan = build_route_plan(&runtime_plan);
    let intent = build_runtime_intent(&route_plan, true, true);

    assert_eq!(intent.microphone_label.as_deref(), Some("USB Microphone"));
    assert_eq!(intent.loopback_label.as_deref(), Some("Speakers (Realtek Audio)"));
    assert!(intent.summary.contains("microphone route"));
    assert!(intent.summary.contains("loopback route"));
}

#[test]
fn builds_start_plan_from_discovered_inputs() {
    let report = parse_endpoint_report(SINGLE_ROUTE_REPORT).expect("report should parse");
    let runtime_plan = build_runtime_plan(&report);
    let route_plan = build_route_plan(&runtime_plan);
    let discovered = vec![
        AudioInputOption {
            id: DEFAULT_AUDIO_INPUT_ID.to_string(),
            label: "Default input".to_string(),
            description: "Use the default input.".to_string(),
            kind: AudioInputKind::Default,
        },
        AudioInputOption {
            id: "USB Microphone".to_string(),
            label: "USB Microphone".to_string(),
            description: "Windows capture input: USB Microphone".to_string(),
            kind: AudioInputKind::Microphone,
        },
        AudioInputOption {
            id: "Stereo Mix".to_string(),
            label: "System audio · Stereo Mix".to_string(),
            description: "Windows system-audio input: Stereo Mix".to_string(),
            kind: AudioInputKind::System,
        },
    ];

    let start_plan = start_plan(DEFAULT_AUDIO_INPUT_ID, true, true, &discovered, Some(&route_plan));
    assert_eq!(start_plan.microphone_device_name.as_deref(), Some("USB Microphone"));
    assert_eq!(start_plan.system_audio_device_name.as_deref(), Some("Stereo Mix"));
    assert!(route_plan.default_input_note.contains("preferred Windows capture candidate"));
    assert!(start_plan.summary.contains("microphone route"));
}

#[test]
fn start_plan_without_route_names_both_routes() {
    let plan = start_plan(DEFAULT_AUDIO_INPUT_ID, true, false, &[], None);
    assert_eq!(plan.microphone_device_name, None);
    assert_eq!(
        plan.summary,
        "Windows audio start plan resolved microphone route `none` and system-audio route `none`."
    );
}

#[test]
fn scores_capture_and_render_endpoints() {
    assert_eq!(capture_endpoint_score("USB Headset Microphone"), 210);
    assert_eq!(capture_endpoint_score("Line In"), 10);
    assert_eq!(render_endpoint_score("Speakers (HDMI Display)"), 160);
    assert_eq!(render_endpoint_score("Headphones (USB DAC)"), 120);
}

#[test]
fn later_endpoints_win_score_ties() {
    let stdout = "CAPTURE@A@Mic One\nCAPTURE@B@Mic Two\n".replace('@', "\t");
    let report = parse_endpoint_report(&stdout).unwrap();
    assert_eq!(select_capture_endpoint(&report).map(|e| e.instance_id.as_str()), Some("B"));
}

#[test]
fn runtime_summary_lists_the_resolved_endpoints() {
    let report = parse_endpoint_report(SINGLE_ROUTE_REPORT).unwrap();
    let plan = build_runtime_plan(&report);
    assert_eq!(
        runtime_summary(Some(&plan)).as_deref(),
        Some("Windows audio probing resolved default input `USB Microphone`, preferred capture endpoint `USB Microphone`, preferred render endpoint `Speakers (Realtek Audio)`.")
    );
    let inputs = selectable_audio_inputs(Some(&plan));
    assert_eq!(inputs.len(), 2);
    assert_eq!(inputs[0].id, "USBMIC-DEVICE");
    assert_eq!(inputs[1].kind, AudioInputKind::System);
}

#[test]
fn launcher_summaries_follow_the_endpoint_plan() {
    let report = parse_endpoint_report(SINGLE_ROUTE_REPORT).unwrap();
    let plan = build_runtime_plan(&report);
    let inputs = list_audio_inputs(Some(&plan));
    assert_eq!(inputs.len(), 3);
    assert_eq!(
        inputs[0].description,
        "The app can route `Default input` through the preferred Windows capture candidate `USB Microphone`."
    );
    assert!(audio_input_support_summary(Some(&plan)).starts_with(
        "Windows reports default input `USB Microphone`, 1 capture endpoint, and 1 render endpoint."
    ));
    let (supported, note) = system_audio_support_summary(Some(&plan));
    assert!(supported);
    assert!(note.ends_with("The current preferred render candidate is `Speakers (Realtek Audio)`."));
    assert_eq!(
        audio_input_support_summary(None),
        "Windows could not inspect WASAPI audio endpoints from this session."
    );
}

#[test]
fn wasapi_runtime_records() {
    let mic = WindowsWasapiClientFoundation {
        endpoint_role: "microphone".to_string(),
        endpoint_id: "{mic}".to_string(),
        loopback: false,
        channels: 2,
        sample_rate_hz: 48_000,
        bits_per_sample: 16,
        buffer_frames: 480,
        default_device_period_100ns: 100_000,
    };
    let foundation = audio_runtime_foundation(Some(mic.clone()), None);
    assert_eq!(
        foundation.summary,
        "Windows WASAPI runtime foundation initialized microphone endpoint `{mic}` at 48000 Hz / 2 channel(s) / 16 bits."
    );
    let mut other = mic.clone();
    assert!(ensure_mix_compatible_foundations(&mic, &other).is_ok());
    other.bits_per_sample = 32;
    assert!(matches!(ensure_mix_compatible_foundations(&mic, &other), Err(CaptureError::BackendUnavailable(_))));

    let mut stats = WindowsWasapiPacketStats::default();
    stats.record_packet(480, false);
    stats.record_packet(480, true);
    assert_eq!((stats.packets_observed, stats.frames_observed, stats.silent_packets), (2, 960, 1));
    let smoke = audio_smoke_lifecycle(Some(stats), None);
    assert!(smoke.summary.contains("microphone_packets=2"));
    assert!(smoke.summary.contains("loopback_packets=n/a"));
    assert_eq!(bytes_per_frame(2, 16), 4);
    assert_eq!(bytes_per_frame(0, 16), 1);
    assert_eq!(packet_timing(480, 48_000, 48_000), (100_000, 10_000_000));
}

#[test]
fn mic_plus_system_audio_is_not_blocked_by_native_policy() {
    let mut options = recording_options(&format!("{MONITOR_TARGET_PREFIX}DISPLAY1"));
    options.mic_enabled = true;
    options.system_audio_enabled = true;

    assert!(
        native_recording_unsupported_reason(&options, 0).is_none(),
        "native Windows policy should allow strict-format mic + loopback mixing",
    );
}

#[test]
fn custom_region_is_supported_by_native_policy() {
    let options = recording_options(CUSTOM_REGION_TARGET_ID);
    assert!(
        native_recording_unsupported_reason(&options, 0).is_none(),
        "custom region should now stay on the native Windows path",
    );
}

#[test]
fn full_desktop_needs_a_monitor() {
    let options = recording_options(FULL_DESKTOP_TARGET_ID);
    assert!(native_recording_unsupported_reason(&options, 0).is_some());
    assert!(native_recording_unsupported_reason(&options, 2).is_none());
}

#[test]
fn resolves_windows_targets() {
    let monitors = vec![monitor("DISPLAY1", 0, 0, 1920, 1080), monitor("DISPLAY2", -1280, 100, 1280, 1024)];
    let windows: Result<Vec<WindowDescriptor>, CaptureError> = Ok(vec![WindowDescriptor {
        id: 4242,
        title: "Notes".to_string(),
        process_name: "notepad".to_string(),
        width: 800,
        height: 600,
        x: 10,
        y: 20,
    }]);
    let desktop = resolve_full_desktop_target(&monitors);
    assert_eq!((desktop.offset_x, desktop.offset_y, desktop.video_size), (Some(-1280), Some(0), Some((3200, 1124))));
    let window = resolve_target(&recording_options("window:4242"), &monitors, &windows).unwrap();
    assert_eq!(window.label, "Window · Notes");
    assert!(matches!(
        resolve_target(&recording_options("monitor:DISPLAY9"), &monitors, &windows),
        Err(CaptureError::BackendUnavailable(m)) if m == "the selected monitor `DISPLAY9` is no longer available"
    ));
    assert_eq!(
        preview_target_bounds(CUSTOM_REGION_TARGET_ID, 5, 6, 10, 400, &monitors, &windows).unwrap(),
        (5, 6, 64, 400)
    );
    let targets = list_capture_targets(Some(&monitors), windows.as_ref().ok());
    assert_eq!(targets.len(), 4);
    assert_eq!(targets[3].id, "window:4242");
    assert_eq!(targets[3].description, "notepad · 800 x 600");
}

#[test]
fn execution_plan_composes_several_monitors() {
    let monitors: Result<Vec<MonitorDescriptor>, CaptureError> =
        Ok(vec![monitor("DISPLAY1", 0, 0, 1920, 1080), monitor("DISPLAY2", 1920, 0, 1920, 1080)]);
    let windows: Result<Vec<WindowDescriptor>, CaptureError> = Ok(vec![]);
    let plan = execution_plan(&recording_options(FULL_DESKTOP_TARGET_ID), &monitors, &windows).unwrap();
    assert_eq!(plan.item_kind, "desktop");
    assert_eq!((plan.width, plan.height), (3840, 1080));
    let single: Result<Vec<MonitorDescriptor>, CaptureError> = Ok(vec![monitor("DISPLAY1", 0, 0, 1920, 1080)]);
    let plan = execution_plan(&recording_options("monitor:DISPLAY1"), &single, &windows).unwrap();
    assert_eq!(plan.item_kind, "monitor");
    assert_eq!(
        plan.summary,
        "Windows.Graphics.Capture execution plan would create a monitor capture item for `Display DISPLAY1` at 1920x1080."
    );
}

#[test]
fn normalizes_encoder_crops() {
    assert_eq!(normalize_encoder_dimension(1081, 1081), 1080);
    assert_eq!(normalize_encoder_dimension(0, 0), 1);
    assert_eq!(encoder_crop_rect_from_source(None, 1920, 1080), None);
    assert_eq!(
        encoder_crop_rect_from_source(None, 1921, 1080),
        Some(CropRect { x: 0, y: 0, width: 1920, height: 1080 })
    );
    let crop = CropRect { x: 100, y: 50, width: 401, height: 301 };
    assert_eq!(encoder_video_size_from_source(Some(crop), 1920, 1080), (400, 300));
    assert_eq!(display_ordinal("\\\\.\\DISPLAY2"), Some(1));
    assert_eq!(display_ordinal("\\\\.\\DISPLAY"), None);
    assert_eq!(display_ordinal("DISPLAY0"), None);
}

#[test]
fn output_plan_uses_expected_profile_for_1080p30() {
    let plan = output_plan(&encoder_options());
    assert_eq!(plan.container_label, "MP4");
    assert_eq!(plan.encoder_label, "Media Foundation H.264");
    assert_eq!(plan.width, 1920);
    assert_eq!(plan.height, 1080);
    assert_eq!(plan.fps, 30);
    assert_eq!(plan.bitrate, 8_000_000);
    assert!(plan.summary.contains("MP4"));
    assert!(plan.summary.contains("H.264"));
}

#[test]
fn sample_bridge_plan_uses_expected_duration_for_30fps() {
    let plan = sample_bridge_plan(&encoder_options(), Some("d3d11-texture2d"));
    assert_eq!(plan.expected_surface_kind, "d3d11-texture2d");
    assert_eq!(plan.sample_factory, "MFCreateVideoSampleFromSurface(ID3D11Texture2D)");
    assert_eq!(plan.duration_100ns, 333_333);
}

#[test]
fn encoder_numbers() {
    assert_eq!(frame_duration_100ns(0), 10_000_000);
    assert_eq!(frame_duration_100ns(60), 166_666);
    assert_eq!(pack_u32_pair(1920, 1080), (1920u64 << 32) | 1080);
}

#[test]
fn mixes_microphone_and_loopback_packets() {
    let packet = |time: i64, samples: &[i16]| WindowsWasapiAudioPacket {
        sample_time_100ns: time,
        duration_100ns: 100,
        frames: samples.len() as u32,
        bytes: samples.iter().flat_map(|s| s.to_le_bytes()).collect(),
    };
    let mut mic = VecDeque::from(vec![packet(0, &[100, -3, 32767]), packet(10, &[1])]);
    let mut lb = VecDeque::from(vec![packet(5, &[0, 0, 0]), packet(10, &[2])]);
    assert!(try_mix_audio_packets(&mut mic, &mut lb).unwrap().is_none());
    assert_eq!(mic.len(), 1);
    let mut mic2 = VecDeque::from(vec![packet(5, &[100, -3, 32767])]);
    let mixed = try_mix_audio_packets(&mut mic2, &mut lb).unwrap().unwrap();
    let values: Vec<i16> = mixed.bytes.chunks_exact(2).map(|c| i16::from_le_bytes([c[0], c[1]])).collect();
    assert_eq!(values, vec![50, -1, 16383]);
    assert_eq!(mixed.sample_time_100ns, 5);
    let mut a = VecDeque::from(vec![packet(7, &[1, 2])]);
    let mut b = VecDeque::from(vec![packet(7, &[1])]);
    assert!(matches!(try_mix_audio_packets(&mut a, &mut b), Err(CaptureError::BackendUnavailable(_))));
    let mut empty = VecDeque::new();
    assert!(try_mix_audio_packets(&mut empty, &mut lb).unwrap().is_none());
}

#[test]
fn recording_loop_decisions() {
    let mut first = None;
    assert_eq!(normalized_sample_time(&mut first, 500), 0);
    assert_eq!(normalized_sample_time(&mut first, 800), 300);
    assert_eq!(normalized_sample_time(&mut first, 100), -400);
    assert_eq!(first, Some(500));
    let stop = Err(CaptureError::StopFailed("mic".to_string()));
    assert!(matches!(recording_outcome(Ok(()), stop, Ok(()), Ok(())), Err(CaptureError::StopFailed(m)) if m == "mic"));
    assert!(recording_outcome(Ok(()), Ok(()), Ok(()), Ok(())).is_ok());
    let f = WindowsWasapiClientFoundation {
        endpoint_role: "loopback".to_string(),
        endpoint_id: "{spk}".to_string(),
        loopback: true,
        channels: 2,
        sample_rate_hz: 48_000,
        bits_per_sample: 16,
        buffer_frames: 1_000,
        default_device_period_100ns: 100_000,
    };
    let silent = silent_audio_packet(&f);
    assert_eq!((silent.frames, silent.duration_100ns, silent.bytes.len()), (2_400, 500_000, 9_600));
    assert!(silent.bytes.iter().all(|b| *b == 0));
    assert!(matches!(worker_start_error("loopback", "busy"),
        CaptureError::BackendUnavailable(m) if m == "Windows WASAPI loopback worker could not start: busy"));
    assert_eq!(audio_flush_mode(true, true), AudioFlushMode::Mixed);
    assert_eq!(audio_flush_mode(false, false), AudioFlushMode::Nothing);
}

#[test]
fn mixing_is_symmetric_and_a_buffer_mixed_with_itself_is_unchanged() {
    // samples 1000, -3000, 32767 and -32768 against -1000, 5, 1, -1
    let a: Vec<u8> = [1000i16, -3000, 32767, -32768].iter().flat_map(|s| s.to_le_bytes()).collect();
    let b: Vec<u8> = [-1000i16, 5, 1, -1].iter().flat_map(|s| s.to_le_bytes()).collect();
    assert_eq!(mix_pcm(&a, &b), mix_pcm(&b, &a));
    let expected: Vec<u8> = [0i16, -1497, 16384, -16384].iter().flat_map(|s| s.to_le_bytes()).collect();
    assert_eq!(mix_pcm(&a, &b), expected);
    assert_eq!(mix_pcm(&a, &a), a);
}

#[test]
fn encoder_bridge_smoke_summary_describes_the_written_sample() {
    let summary = record_screen::windows::capture::encoder_bridge_smoke_summary(Ok((
        "d3d11-texture2d".to_string(),
        0,
        0,
        333_333,
    )));
    assert_eq!(
        summary.as_deref(),
        Some("Windows WGC -> Media Foundation smoke wrote one `d3d11-texture2d` sample. surface_kind=d3d11-texture2d stream_index=0 sample_time_100ns=0 sample_duration_100ns=333333")
    );
    assert!(record_screen::windows::capture::encoder_bridge_smoke_summary(Err(
        record_screen::capture::CaptureError::UnsupportedPlatform
    ))
    .is_none());
}

#[test]
fn execution_plan_summary_reports_the_plan_or_none() {
    let monitors: Result<Vec<MonitorDescriptor>, CaptureError> =
        Ok(vec![monitor("DISPLAY1", 0, 0, 1920, 1080), monitor("DISPLAY2", 1920, 0, 1920, 1080)]);
    let windows: Result<Vec<WindowDescriptor>, CaptureError> = Ok(vec![]);
    assert_eq!(
        record_screen::windows::capture_execution_plan_summary(&recording_options(FULL_DESKTOP_TARGET_ID), &monitors, &windows)
            .as_deref(),
        Some("Windows.Graphics.Capture execution plan would compose 2 monitor session(s) into a full-desktop texture at 3840x1080.")
    );
    let failed: Result<Vec<MonitorDescriptor>, CaptureError> = Err(CaptureError::UnsupportedPlatform);
    assert!(record_screen::windows::capture_execution_plan_summary(&recording_options(FULL_DESKTOP_TARGET_ID), &failed, &windows)
        .is_none());
    assert!(record_screen::windows::capture_execution_plan_summary(&recording_options("monitor:DISPLAY9"), &monitors, &windows)
        .is_none());
}

#[test]
fn foundation_summaries_report_the_opened_clients_and_writer() {
    let mic = WindowsWasapiClientFoundation {
        endpoint_role: "microphone".to_string(),
        endpoint_id: "{mic}".to_string(),
        loopback: false,
        channels: 2,
        sample_rate_hz: 48_000,
        bits_per_sample: 16,
        buffer_frames: 480,
        default_device_period_100ns: 100_000,
    };
    assert_eq!(
        record_screen::windows::audio_runtime_foundation_summary(Ok((Some(mic), None))).as_deref(),
        Some("Windows WASAPI runtime foundation initialized microphone endpoint `{mic}` at 48000 Hz / 2 channel(s) / 16 bits.")
    );
    assert_eq!(
        record_screen::windows::audio_runtime_foundation_summary(Ok((None, None))).as_deref(),
        Some("Windows WASAPI runtime foundation did not request microphone or loopback.")
    );
    assert!(record_screen::windows::audio_runtime_foundation_summary(Err("no device".to_string())).is_none());
    assert_eq!(
        record_screen::windows::encoder_runtime_foundation_summary(&recording_options(FULL_DESKTOP_TARGET_ID), Ok(0)).as_deref(),
        Some("Windows Media Foundation runtime foundation created a sink writer for `windows-native-test.mp4` with stream_index=0 and began/finalized an H.264 MP4 session at 1920x1080 / 30 fps.")
    );
    assert!(record_screen::windows::encoder_runtime_foundation_summary(
        &recording_options(FULL_DESKTOP_TARGET_ID),
        Err(CaptureError::UnsupportedPlatform)
    )
    .is_none());
}

#[test]
fn composite_copy_region_intersects_with_the_crop() {
    let region = record_screen::windows::capture::composite_copy_region;
    assert_eq!(region(1920, 0, 1920, 1080, None), Some((1920, 0, 0, 0, 1920, 1080)));
    assert_eq!(region(0, 0, 0, 1080, None), None);
    let crop = CropRect { x: 1800, y: 100, width: 400, height: 300 };
    assert_eq!(region(0, 0, 1920, 1080, Some(crop)), Some((0, 0, 1800, 100, 120, 300)));
    assert_eq!(region(1920, 0, 1920, 1080, Some(crop)), Some((120, 0, 0, 100, 280, 300)));
    assert_eq!(region(3840, 0, 1920, 1080, Some(crop)), None);
}
