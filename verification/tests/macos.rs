use std::sync::{Arc, Mutex};
use std::time::Duration;

use record_screen::capture::{
    AudioInputKind, AudioInputOption, CaptureError, EncoderBackendAvailability, RecordingOptions,
    CUSTOM_REGION_TARGET_ID, DEFAULT_AUDIO_INPUT_ID, FULL_DESKTOP_TARGET_ID,
};
use record_screen::macos::audio::{
    parse_system_profiler_audio_report, preferred_input_device_name, preferred_output_device_name,
    resolve_native_microphone_device, route_plan, start_plan as audio_start_plan, MacosAudioDevice,
    MacosAudioDeviceReport, MacosNativeAudioInputDevice,
};
use record_screen::macos::composite::{
    AUDIO_FORMAT_FLAG_IS_FLOAT, AUDIO_FORMAT_FLAG_IS_SIGNED_INTEGER,
    composite_dual_audio_support_note, duration_for_frame_count, ensure_audio_format_supported,
    ensure_dual_audio_formats_supported,
};
use record_screen::macos::encoder::{
    backend as encoder_backend, native_recording_output_profile, output_plan, path_extension, runtime_summary,
};
use record_screen::macos::native_backend::{
    bridge_summary, build_probe_summary, build_start_plan, enrich_start_plan, execution_plan, format_display_label,
    parse_version, resolve_native_target, smoke_lifecycle, stream_settings, NativeDisplay,
    ScreenCaptureKitBufferBridgeStats, ScreenCaptureKitExecutionPlan, ScreenCaptureKitNativeTarget,
    ScreenCaptureKitPreparedRuntime, ScreenCaptureKitProbeReport, ScreenCaptureKitRuntimeFoundation,
    ScreenCaptureKitSmokeLifecycle, ScreenCaptureKitStartPlan,
};
use record_screen::macos::{
    completion_poll, custom_region_support_summary, describe_output_path_error, duration_from_cmtime,
    list_device_options, native_recording_output_support_note_for, parse_macos_version, recording_output_codec,
    recording_output_file_type, recording_target_label, shutdown_outcome, startup_poll,
    supports_native_recording_output, system_audio_support_summary, OutputPathErrorKind, RecordingOutputCodec,
    RecordingOutputFileType, RecordingOutputPoll, ScreenCaptureKitRecordingOutputState,
};

fn options(output: &str, preset: &str, target: &str, source: &str, scale: u32) -> RecordingOptions {
    RecordingOptions {
        output_path: output.to_string(),
        quality_preset: preset.to_string(),
        mic_enabled: true,
        system_audio_enabled: false,
        capture_target_id: target.to_string(),
        audio_input_id: "default".to_string(),
        portal_parent_window: None,
        portal_restore_token: None,
        region_x: 0,
        region_y: 0,
        region_width: 0,
        region_height: 0,
        region_source_capture_target_id: source.to_string(),
        region_source_origin_x: 0,
        region_source_origin_y: 0,
        region_source_scale_factor_milli: scale,
    }
}

fn two_display_report() -> ScreenCaptureKitProbeReport {
    ScreenCaptureKitProbeReport {
        summary: String::new(),
        preferred_target_label: None,
        display_count: 2,
        window_count: 0,
        application_count: 0,
        targets: vec![
            ScreenCaptureKitNativeTarget {
                target_id: "monitor:69733248".to_string(),
                display_index: 0,
                display_id: 69733248,
                label: "Display 69733248 (3024x1964)".to_string(),
            },
            ScreenCaptureKitNativeTarget {
                target_id: "monitor:1002".to_string(),
                display_index: 1,
                display_id: 1002,
                label: "Display 1002 (1920x1080)".to_string(),
            },
        ],
    }
}

fn speakers_and_microphone() -> MacosAudioDeviceReport {
    MacosAudioDeviceReport {
        devices: vec![
            MacosAudioDevice {
                name: "MacBook Pro Speakers".to_string(),
                default_input: false,
                default_output: true,
            },
            MacosAudioDevice {
                name: "MacBook Pro Microphone".to_string(),
                default_input: true,
                default_output: false,
            },
        ],
    }
}

#[test]
fn calculates_duration_from_frame_count() {
    assert_eq!(Duration::from_nanos(duration_for_frame_count(60, 30)), Duration::from_secs(2));
    assert_eq!(Duration::from_nanos(duration_for_frame_count(0, 30)), Duration::default());
}

#[test]
fn duration_for_frame_count_saturates_and_ignores_zero_rate() {
    assert_eq!(duration_for_frame_count(45, 0), 0);
    assert_eq!(duration_for_frame_count(u64::MAX, 1), u64::MAX);
    assert_eq!(duration_for_frame_count(1, 3), 333_333_333);
}

#[test]
fn builds_audio_support_note_for_multi_display_lane() {
    let note = composite_dual_audio_support_note(3);
    assert!(note.contains("3 macOS displays"));
    assert!(note.contains("converted automatically"));
}

#[test]
fn audio_support_note_counts_at_least_two_displays() {
    assert!(composite_dual_audio_support_note(1).starts_with("Full desktop across 2 macOS displays"));
}

#[test]
fn accepts_float_and_signed_pcm_and_rejects_the_rest() {
    assert!(ensure_audio_format_supported(1 | 8, 32).is_ok());
    assert!(ensure_audio_format_supported(4, 16).is_ok());
    assert!(ensure_dual_audio_formats_supported((1 | 8, 32), (4 | 8, 16)).is_ok());
    match ensure_audio_format_supported(1 | 2, 32) {
        Err(CaptureError::BackendUnavailable(m)) => assert!(m.contains("little-endian")),
        other => panic!("unexpected {other:?}"),
    }
    match ensure_dual_audio_formats_supported((1, 32), (4, 24)) {
        Err(CaptureError::BackendUnavailable(m)) => assert!(m.contains("16-bit signed PCM")),
        other => panic!("unexpected {other:?}"),
    }
}

#[test]
fn converts_recording_output_duration_from_cmtime() {
    let (secs, nanos) = duration_from_cmtime(2500, 1000).expect("valid media time");
    assert_eq!(Duration::new(secs, nanos), Duration::from_millis(2500));
    assert_eq!(duration_from_cmtime(-1, 1000), None);
    assert_eq!(duration_from_cmtime(10, 0), None);
}

#[test]
fn recording_output_state_defaults_are_idle() {
    let state = ScreenCaptureKitRecordingOutputState::default();
    assert!(!state.started);
    assert!(!state.finished);
    assert!(state.error.is_none());
}

#[test]
fn recording_output_start_state_can_be_marked_started() {
    let state = Arc::new(Mutex::new(ScreenCaptureKitRecordingOutputState::default()));
    {
        let mut guard = state.lock().expect("state lock should work");
        guard.started = true;
    }
    assert!(state.lock().expect("state lock should work").started);
}

#[test]
fn recording_output_polls_follow_the_callbacks() {
    let mut state = ScreenCaptureKitRecordingOutputState::default();
    assert!(matches!(startup_poll(&state, false), RecordingOutputPoll::Pending));
    assert!(matches!(startup_poll(&state, true), RecordingOutputPoll::Ready));
    state.mark_started();
    assert!(matches!(startup_poll(&state, false), RecordingOutputPoll::Ready));
    assert!(matches!(completion_poll(&state, true, 0), RecordingOutputPoll::Pending));
    assert!(matches!(completion_poll(&state, true, 12), RecordingOutputPoll::Ready));
    state.mark_finished();
    assert!(matches!(completion_poll(&state, false, 0), RecordingOutputPoll::Ready));
    state.mark_failed("disk gone".to_string());
    match completion_poll(&state, false, 0) {
        RecordingOutputPoll::Failed(CaptureError::StopFailed(m)) => assert_eq!(m, "disk gone"),
        other => panic!("unexpected {other:?}"),
    }
    match startup_poll(&state, true) {
        RecordingOutputPoll::Failed(CaptureError::SpawnFailed(m)) => assert_eq!(m, "disk gone"),
        other => panic!("unexpected {other:?}"),
    }
}

#[test]
fn shutdown_outcome_combines_both_errors() {
    assert!(shutdown_outcome(None, None).is_ok());
    match shutdown_outcome(Some("a".to_string()), Some("b".to_string())) {
        Err(CaptureError::StopFailed(m)) => {
            assert_eq!(m, "failed to stop ScreenCaptureKit recording output cleanly: stop=a; remove=b")
        }
        other => panic!("unexpected {other:?}"),
    }
    match shutdown_outcome(None, Some("b".to_string())) {
        Err(CaptureError::StopFailed(m)) => assert_eq!(m, "b"),
        other => panic!("unexpected {other:?}"),
    }
}

#[test]
fn parses_macos_product_versions() {
    assert_eq!(parse_macos_version("15.0"), Some((15, 0, 0)));
    assert_eq!(parse_macos_version("14.6.1"), Some((14, 6, 1)));
    assert_eq!(parse_macos_version(""), None);
}

#[test]
fn recording_output_support_note_mentions_runtime_requirement() {
    let note = native_recording_output_support_note_for(Some((14, 7, 0)));
    assert!(note.contains("macOS 15.0 or newer"));
    assert!(note.contains("14.7.0"));
}

#[test]
fn support_summaries_follow_the_macos_version() {
    assert_eq!(
        custom_region_support_summary(Some((15, 1, 0))),
        (true, "Custom region capture is available on macOS through the ScreenCaptureKit native lane.".to_string())
    );
    let (supported, note) = system_audio_support_summary(None);
    assert!(!supported);
    assert_eq!(note, "The app could not confirm the macOS version for ScreenCaptureKit recording-output support.");
}

#[test]
fn parses_audio_devices_from_system_profiler_output() {
    let sample = r#"
Audio:

    Devices:

        MacBook Pro Speakers:

            Default Output Device: Yes

        MacBook Pro Microphone:

            Default Input Device: Yes
"#;

    let report = parse_system_profiler_audio_report(sample).expect("report should parse");
    assert_eq!(report.devices.len(), 2);
    assert_eq!(report.devices[0].name, "MacBook Pro Speakers");
    assert!(report.devices[0].default_output);
    assert_eq!(report.devices[1].name, "MacBook Pro Microphone");
    assert!(report.devices[1].default_input);
}

#[test]
fn builds_audio_start_plan_from_default_input() {
    let discovered = vec![
        AudioInputOption {
            id: DEFAULT_AUDIO_INPUT_ID.to_string(),
            label: "Default input".to_string(),
            description: "Use the default input.".to_string(),
            kind: AudioInputKind::Default,
        },
        AudioInputOption {
            id: "MacBook Pro Microphone".to_string(),
            label: "MacBook Pro Microphone".to_string(),
            description: "AVFoundation input: MacBook Pro Microphone".to_string(),
            kind: AudioInputKind::Microphone,
        },
    ];
    let native = vec![MacosNativeAudioInputDevice {
        id: "BuiltInMicrophoneDevice".to_string(),
        name: "MacBook Pro Microphone".to_string(),
        is_default: true,
    }];
    let report = speakers_and_microphone();

    let plan = audio_start_plan(DEFAULT_AUDIO_INPUT_ID, true, false, &discovered, &native, Some(&report));
    assert_eq!(plan.microphone_device_id, None);
    assert_eq!(plan.microphone_device_name.as_deref(), Some("MacBook Pro Microphone"));
    assert!(plan.summary.contains("microphone route"));
}

#[test]
fn route_plan_is_constructible_when_devices_exist() {
    let report = speakers_and_microphone();
    let plan = route_plan(Some(&report)).expect("devices exist");
    assert_eq!(plan.default_input_label.as_deref(), Some("MacBook Pro Microphone"));
    assert_eq!(plan.default_output_label.as_deref(), Some("MacBook Pro Speakers"));
    assert!(route_plan(None).is_none());
}

#[test]
fn preferred_devices_fall_back_to_the_first_device() {
    let report = MacosAudioDeviceReport {
        devices: vec![MacosAudioDevice { name: "USB Audio".to_string(), default_input: false, default_output: false }],
    };
    assert_eq!(preferred_input_device_name(Some(&report)).as_deref(), Some("USB Audio"));
    assert_eq!(preferred_output_device_name(Some(&report)).as_deref(), Some("USB Audio"));
    assert_eq!(preferred_output_device_name(None), None);
}

#[test]
fn resolves_specific_native_microphone_device_from_selected_label() {
    let discovered = vec![AudioInputOption {
        id: "mic-1".to_string(),
        label: "USB Microphone".to_string(),
        description: "AVFoundation input: USB Microphone".to_string(),
        kind: AudioInputKind::Microphone,
    }];
    let native_devices = vec![MacosNativeAudioInputDevice {
        id: "native-usb-1".to_string(),
        name: "USB Microphone".to_string(),
        is_default: false,
    }];

    let (device_id, device_name) = resolve_native_microphone_device("mic-1", true, &discovered, &native_devices, None);
    assert_eq!(device_id.as_deref(), Some("native-usb-1"));
    assert_eq!(device_name.as_deref(), Some("USB Microphone"));
}

#[test]
fn parses_semver_like_macos_versions() {
    assert_eq!(parse_version("14.4.1"), Some((14, 4, 1)));
    assert_eq!(parse_version("13.6"), Some((13, 6, 0)));
}

#[test]
fn rejects_invalid_versions() {
    assert_eq!(parse_version(""), None);
    assert_eq!(parse_version("ventura"), None);
}

#[test]
fn builds_probe_summary() {
    assert_eq!(
        build_probe_summary(2, 14, 6),
        "ScreenCaptureKit shareable-content probe found 2 display(s), 14 window(s), and 6 application(s)."
    );
}

#[test]
fn formats_display_label() {
    assert_eq!(format_display_label(69733248, 3024, 1964), "Display 69733248 (3024x1964)");
}

#[test]
fn resolves_stream_settings_from_quality_preset() {
    assert_eq!(stream_settings("720p / 30 fps"), (1280, 720, 30));
    assert_eq!(stream_settings("4K / 60 fps"), (3840, 2160, 60));
}

#[test]
fn resolves_full_desktop_to_first_native_target() {
    let report = two_display_report();
    let target = &report.targets[resolve_native_target(&report, FULL_DESKTOP_TARGET_ID).unwrap()];
    assert_eq!(target.display_id, 69733248);
}

#[test]
fn resolves_monitor_targets_by_exact_or_index_match() {
    let report = two_display_report();

    let exact_target = &report.targets[resolve_native_target(&report, "monitor:69733248").unwrap()];
    assert_eq!(exact_target.display_id, 69733248);

    let index_target = &report.targets[resolve_native_target(&report, "monitor:1").unwrap()];
    assert_eq!(index_target.display_id, 69733248);

    let second_index_target = &report.targets[resolve_native_target(&report, "monitor:2").unwrap()];
    assert_eq!(second_index_target.display_id, 1002);
}

#[test]
fn builds_custom_region_start_plan() {
    let mut o = options("/tmp/out.mp4", "1080p / 30 fps", CUSTOM_REGION_TARGET_ID, "monitor:main", 2000);
    o.region_x = 100;
    o.region_y = 120;
    o.region_width = 1280;
    o.region_height = 720;
    o.region_source_origin_y = 24;
    let plan = build_start_plan(&o);

    assert_eq!(plan.target_id, CUSTOM_REGION_TARGET_ID);
    assert_eq!(plan.resolved_source_target_id, "monitor:main");
    assert!(plan.summary.contains("custom region"));
    assert!(plan.summary.contains("monitor:main"));
    assert!(plan.summary.contains("scale=2000"));
    assert_eq!(plan.output_width, 1920);
    assert_eq!(plan.output_height, 1080);
    assert_eq!(plan.fps, 30);
}

#[test]
fn builds_full_desktop_start_plan() {
    let plan = build_start_plan(&options(
        "/tmp/out.mp4",
        "1080p / 30 fps",
        FULL_DESKTOP_TARGET_ID,
        FULL_DESKTOP_TARGET_ID,
        1000,
    ));

    assert_eq!(plan.resolved_source_target_id, FULL_DESKTOP_TARGET_ID);
    assert!(plan.summary.contains("full desktop"));
    assert!(plan.region_summary.is_none());
}

#[test]
fn enrich_start_plan_keeps_shape_stable() {
    let plan = ScreenCaptureKitStartPlan {
        target_id: FULL_DESKTOP_TARGET_ID.to_string(),
        resolved_source_target_id: FULL_DESKTOP_TARGET_ID.to_string(),
        resolved_native_target_label: None,
        output_width: 1920,
        output_height: 1080,
        fps: 30,
        target_summary: "ScreenCaptureKit would target the full desktop capture source.".to_string(),
        stream_summary: "Stream config would request 1920x1080 at 30 fps.".to_string(),
        region_summary: None,
        summary: "ScreenCaptureKit would target the full desktop capture source. Stream config would request 1920x1080 at 30 fps.".to_string(),
    };

    let report = two_display_report();
    let enriched = enrich_start_plan(plan, Some(&report));
    if let Some(label) = enriched.resolved_native_target_label {
        assert!(enriched.summary.contains(&label));
    }
}

#[test]
fn enrich_start_plan_names_the_first_display_for_the_full_desktop() {
    let plan = build_start_plan(&options(
        "/tmp/out.mp4",
        "1080p / 30 fps",
        FULL_DESKTOP_TARGET_ID,
        FULL_DESKTOP_TARGET_ID,
        1000,
    ));
    let report = two_display_report();
    let enriched = enrich_start_plan(plan, Some(&report));
    assert_eq!(enriched.resolved_native_target_label.as_deref(), Some("Display 69733248 (3024x1964)"));
    assert!(enriched.summary.ends_with(" Native candidate resolves to Display 69733248 (3024x1964)."));
}

#[test]
fn execution_plan_shape_is_constructible() {
    let plan = ScreenCaptureKitExecutionPlan {
        target_label: "Display 1 (1920x1080)".to_string(),
        width: 1920,
        height: 1080,
        fps: 30,
        shows_cursor: true,
        captures_audio: false,
        summary: "native execution plan".to_string(),
    };

    assert_eq!(plan.width, 1920);
    assert_eq!(plan.fps, 30);
}

#[test]
fn execution_plan_needs_a_native_display() {
    let o = options("/tmp/out.mp4", "720p / 30 fps", FULL_DESKTOP_TARGET_ID, FULL_DESKTOP_TARGET_ID, 1000);
    assert!(execution_plan(&o, None).is_err());
    let plan = execution_plan(&o, Some(NativeDisplay { display_id: 7, width: 1280, height: 800 })).unwrap();
    assert_eq!(plan.target_label, "Display 7 (1280x800)");
    assert_eq!((plan.width, plan.height, plan.fps), (1280, 720, 30));
}

#[test]
fn runtime_foundation_shape_is_constructible() {
    let plan = ScreenCaptureKitRuntimeFoundation {
        target_label: "Display 1 (1920x1080)".to_string(),
        width: 1920,
        height: 1080,
        fps: 30,
        captures_audio: false,
        summary: "runtime foundation".to_string(),
    };

    assert_eq!(plan.height, 1080);
    assert!(!plan.captures_audio);
}

#[test]
fn prepared_runtime_shape_is_constructible() {
    let plan = ScreenCaptureKitPreparedRuntime {
        target_label: "Display 1 (1920x1080)".to_string(),
        screen_handler_registered: true,
        summary: "prepared runtime".to_string(),
    };

    assert!(plan.screen_handler_registered);
}

#[test]
fn smoke_lifecycle_shape_is_constructible() {
    let plan = ScreenCaptureKitSmokeLifecycle {
        target_label: "Display 1 (1920x1080)".to_string(),
        observed_screen_frames: 4,
        observed_audio_samples: 2,
        summary: "smoke lifecycle".to_string(),
    };

    assert_eq!(plan.observed_screen_frames, 4);
    assert_eq!(plan.observed_audio_samples, 2);
}

#[test]
fn smoke_lifecycle_reports_bridge_stats() {
    let prepared = ScreenCaptureKitPreparedRuntime {
        target_label: "Display 1 (1920x1080)".to_string(),
        screen_handler_registered: true,
        summary: String::new(),
    };
    let stats = ScreenCaptureKitBufferBridgeStats {
        screen_frames: 4,
        audio_samples: 0,
        first_screen_pts_millis: Some(-12),
        first_audio_pts_millis: None,
    };
    let run = smoke_lifecycle(&prepared, true, 4, 0, Some(stats)).unwrap();
    assert_eq!(
        run.summary,
        "ScreenCaptureKit smoke lifecycle started and stopped capture for Display 1 (1920x1080) with 4 observed screen frame(s) and 0 observed audio sample(s). bridge(screen_frames=4, audio_samples=0, first_screen_pts_ms=Some(-12), first_audio_pts_ms=None)"
    );
    assert_eq!(bridge_summary(None), "bridge(unavailable)");
    assert!(smoke_lifecycle(&prepared, false, 0, 0, None).is_err());
}

#[test]
fn builds_output_plan_for_mp4() {
    let plan = output_plan(&options("/tmp/output.mp4", "1080p / 30 fps", "full-desktop", "full-desktop", 1000));

    assert_eq!(plan.container_label, "MP4 container");
    assert!(!plan.codec_name.is_empty());
    assert!(plan.summary.contains("Native recording output"));
    assert!(plan.summary.contains("1080p / 30 fps"));
}

#[test]
fn output_plan_falls_back_without_an_extension() {
    let plan = output_plan(&options("/tmp/.hidden", "4K / 60 fps", "full-desktop", "full-desktop", 1000));
    assert_eq!(plan.container_label, "QuickTime-compatible container");
    assert_eq!(plan.encoder_label, "hevc · high-efficiency");
    assert_eq!(
        plan.summary,
        "Native recording output would write QuickTime-compatible container using hevc · high-efficiency for preset `4K / 60 fps` to `/tmp/.hidden`."
    );
}

#[test]
fn path_extension_follows_the_file_name() {
    assert_eq!(path_extension("/tmp/a.b/clip.mov/"), Some(vec!['m', 'o', 'v']));
    assert_eq!(path_extension("/tmp/a.b/clip"), None);
    assert_eq!(path_extension("archive.tar.gz"), Some(vec!['g', 'z']));
    assert_eq!(path_extension("/tmp/.."), None);
    assert_eq!(path_extension("name."), Some(vec![]));
}

#[test]
fn recording_profile_prefers_hevc_for_high_presets() {
    assert_eq!(
        native_recording_output_profile("1440p / 60 fps"),
        ("hevc".to_string(), Some("high-efficiency".to_string()))
    );
    assert_eq!(native_recording_output_profile("720p / 30 fps"), ("h264".to_string(), Some("balanced".to_string())));
}

#[test]
fn encoder_lane_depends_on_macos_15() {
    assert_eq!(
        runtime_summary(Some((14, 2, 1))).as_deref(),
        Some("macOS reports version `14.2.1`; native recording output is only fully active on macOS 15+, so older runtimes do not expose this lane.")
    );
    assert_eq!(encoder_backend().availability(Some((15, 0, 0))), EncoderBackendAvailability::Available);
    assert!(matches!(encoder_backend().availability(None), EncoderBackendAvailability::Unavailable { .. }));
}

#[test]
fn recording_output_file_type_and_codec() {
    assert_eq!(recording_output_file_type("/tmp/clip.MOV"), RecordingOutputFileType::Mov);
    assert_eq!(recording_output_file_type("/tmp/clip.mp4"), RecordingOutputFileType::Mp4);
    assert_eq!(recording_output_codec("HEVC"), RecordingOutputCodec::Hevc);
    assert_eq!(recording_output_codec("h264"), RecordingOutputCodec::H264);
}

#[test]
fn native_recording_output_targets() {
    assert!(supports_native_recording_output(FULL_DESKTOP_TARGET_ID));
    assert!(supports_native_recording_output("monitor:2"));
    assert!(supports_native_recording_output(CUSTOM_REGION_TARGET_ID));
    assert!(!supports_native_recording_output("window:12"));
}

#[test]
fn describes_output_path_errors() {
    assert_eq!(
        describe_output_path_error("/tmp/x.mp4", OutputPathErrorKind::StorageFull, "ignored"),
        "recording output `/tmp/x.mp4` could not be finalized because the volume is full."
    );
    assert_eq!(
        describe_output_path_error("/tmp/x.mp4", OutputPathErrorKind::Other, "boom"),
        "boom (/tmp/x.mp4)"
    );
}

#[test]
fn device_options_always_offer_a_target_and_the_default_input() {
    let report = speakers_and_microphone();
    let (targets, inputs) = list_device_options(Some(vec![]), &vec![], Some(&report));
    assert_eq!(targets.len(), 1);
    assert_eq!(targets[0].id, FULL_DESKTOP_TARGET_ID);
    assert_eq!(inputs.len(), 2);
    assert_eq!(inputs[0].description, "Use the macOS default input device: MacBook Pro Microphone.");
    assert_eq!(inputs[1].id, "MacBook Pro Microphone");
}

#[test]
fn recording_target_label_prefers_the_custom_region() {
    let mut o = options("/tmp/out.mp4", "1080p / 30 fps", CUSTOM_REGION_TARGET_ID, "monitor:1", 1000);
    o.region_x = 10;
    o.region_y = 20;
    o.region_width = 640;
    o.region_height = 480;
    let plan = build_start_plan(&o);
    assert_eq!(recording_target_label(&o, &plan), "Custom region · 10, 20 · 640 x 480");
}

const AUDIO_FORMAT_FLAG_IS_PACKED: u32 = 8;

#[test]
fn accepts_supported_dual_audio_formats_even_when_they_differ() {
    let primary = (AUDIO_FORMAT_FLAG_IS_FLOAT | AUDIO_FORMAT_FLAG_IS_PACKED, 32);
    let secondary = (AUDIO_FORMAT_FLAG_IS_SIGNED_INTEGER | AUDIO_FORMAT_FLAG_IS_PACKED, 16);
    assert!(ensure_dual_audio_formats_supported(primary, secondary).is_ok());
}

#[test]
fn rejects_unsupported_dual_audio_formats() {
    let primary = (AUDIO_FORMAT_FLAG_IS_FLOAT | AUDIO_FORMAT_FLAG_IS_PACKED, 32);
    let secondary = (AUDIO_FORMAT_FLAG_IS_SIGNED_INTEGER | AUDIO_FORMAT_FLAG_IS_PACKED, 24);
    let error = ensure_dual_audio_formats_supported(primary, secondary).unwrap_err();
    assert!(error.message().contains("32-bit float PCM or 16-bit signed PCM"));
}

#[test]
fn runtime_foundation_summary_describes_the_stream() {
    let o = options("/tmp/out.mp4", "720p / 30 fps", FULL_DESKTOP_TARGET_ID, FULL_DESKTOP_TARGET_ID, 1000);
    assert_eq!(
        record_screen::macos::capture_runtime_foundation_summary(&o, Some(NativeDisplay { display_id: 7, width: 1280, height: 800 }))
            .as_deref(),
        Some("ScreenCaptureKit runtime foundation constructed SCStream for Display 7 (1280x800) at 1280x720 30 fps, pixel-format=BGRA, cursor=true, system-audio=false.")
    );
    assert!(record_screen::macos::capture_runtime_foundation_summary(&o, None).is_none());
}
