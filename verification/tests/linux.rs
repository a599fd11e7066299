use record_screen::linux::negotiation::{normalized_unique_name, runtime_pending_copy, NegotiationStage, PortalAction, PortalEvent, PortalNegotiation};
use record_screen::capture::{
    AudioBackendAvailability, AudioInputKind, AudioInputOption, CaptureBackendAvailability, CaptureError,
    EncoderBackendAvailability, RecordingOptions, DEFAULT_AUDIO_INPUT_ID, FULL_DESKTOP_TARGET_ID,
};
use record_screen::linux::audio::{
    availability_for as audio_availability_for, discovered_audio_inputs, parse_pactl_server_name,
    parse_pactl_short_names, parse_wpctl_node_name, parse_wpctl_server_name, parse_wpctl_status_entries,
    preferred_input_source_name, preferred_monitor_source_name, runtime_report, runtime_summary,
    LinuxAudioRuntimeReport,
};
use record_screen::linux::encoder::{
    availability_for as encoder_availability_for, encoder_plan_for_quality, preferred_encoder_label,
    GstreamerEncoderPlan, GstreamerEncoderSupport,
};
use record_screen::linux::encoding::{cpu_preset_for_quality, gst_bitrate_for_quality, quality_settings};
use record_screen::linux::pipeline::{
    build_wayland_gstreamer_args, build_x11_gstreamer_args, WaylandPortalRuntimePlan, X11GstreamerRuntimePlan,
};
use record_screen::linux::portal::{
    command_plan, ensure_portal_success, parse_first_u32, parse_request_handle,
    parse_restore_token_from_response, parse_session_handle_from_response, parse_start_response,
    parse_stream_node_ids_from_response, pipewire_support_copy, PipeWireFfmpegSupport, PipeWireGstreamerSupport,
    ScreenCastPortalCapabilities, ScreenCastPortalProbe,
};
use record_screen::linux::runtime::describe_gstreamer_x11_failure;
use record_screen::linux::targets::{
    list_capture_targets, parse_monitors, parse_windows, resolve_audio_input_from_snapshot,
    resolve_target_with_monitors, MonitorDescriptor, WindowDescriptor,
};
use record_screen::linux::{
    classify_desktop_session, normalize_display, portal_backend_availability_for,
    x11_gstreamer_backend_availability_for, LinuxDesktopSession, X11GstreamerSupport,
};
use record_screen::permissions::linux::{describe_cursor_modes, describe_source_types, join_items};

fn options(output: &str, preset: &str, mic: bool, system: bool, target: &str, audio: &str) -> RecordingOptions {
    RecordingOptions {
        output_path: output.to_string(),
        quality_preset: preset.to_string(),
        mic_enabled: mic,
        system_audio_enabled: system,
        capture_target_id: target.to_string(),
        audio_input_id: audio.to_string(),
        portal_parent_window: None,
        portal_restore_token: None,
        region_x: 160,
        region_y: 120,
        region_width: 1280,
        region_height: 720,
        region_source_capture_target_id: FULL_DESKTOP_TARGET_ID.to_string(),
        region_source_origin_x: 0,
        region_source_origin_y: 0,
        region_source_scale_factor_milli: 1000,
    }
}

fn x264_plan(speed: &str, bitrate: &str, gop: &str) -> GstreamerEncoderPlan {
    GstreamerEncoderPlan {
        element_name: "x264enc",
        label: "x264".to_string(),
        property_args: vec![
            format!("speed-preset={speed}"),
            "tune=zerolatency".to_string(),
            format!("bitrate={bitrate}"),
            format!("key-int-max={gop}"),
        ],
    }
}

fn wayland_only() -> LinuxDesktopSession {
    LinuxDesktopSession::WaylandOnly { wayland_display: "wayland-0".to_string() }
}

fn xwayland() -> LinuxDesktopSession {
    LinuxDesktopSession::WaylandWithX11 { wayland_display: "wayland-0".to_string(), x11_display: ":1".to_string() }
}

fn portal_available() -> ScreenCastPortalProbe {
    ScreenCastPortalProbe::Available(ScreenCastPortalCapabilities { available_source_types: 1, available_cursor_modes: 2 })
}

#[test]
fn parses_xrandr_monitor_listing() {
    let monitors = parse_monitors(
        "Monitors: 2\n 0: +*DP-1 1920/600x1080/330+0+0  DP-1\n 1: +HDMI-0 1920/600x1080/330+1920+0  HDMI-0\n",
    );
    assert_eq!(monitors.len(), 2);
    assert_eq!(monitors[0].connector, "DP-1");
    assert_eq!(monitors[0].width, 1920);
    assert_eq!(monitors[0].height, 1080);
    assert_eq!(monitors[0].x, 0);
    assert_eq!(monitors[0].y, 0);
    assert!(monitors[0].is_primary);
    assert_eq!(monitors[1].connector, "HDMI-0");
    assert_eq!(monitors[1].x, 1920);
}

#[test]
fn monitor_labels_number_displays_and_mark_primary() {
    let monitors = parse_monitors(
        "Monitors: 2\n 0: +*DP-1 1920/600x1080/330+0+0  DP-1\n 1: +HDMI-0 1920/600x1080/330+1920+0  HDMI-0\n",
    );
    assert_eq!(monitors[0].label, "Display 1 · Primary (DP-1)");
    assert_eq!(monitors[1].label, "Display 2 · HDMI-0");
    assert!(!monitors[1].is_primary);
}

#[test]
fn parses_x11_window_listing() {
    let windows = parse_windows(
        r#"
     0x2000007 "Tilix: demo": ("tilix" "Tilix")  1920x1080+1920+0  +1920+0
     0x7600003 "Record Screen": ("record-screen-desktop" "Record-screen-desktop")  1308x926+333+114  +333+114
     0x160001e "Google Chrome": ("google-chrome" "Google-chrome")  1865x1048+55+32  +55+32
"#,
    );
    assert_eq!(windows.len(), 2);
    assert_eq!(windows[0].id, "0x2000007");
    assert_eq!(windows[0].width, 1920);
    assert_eq!(windows[0].x, 1920);
    assert_eq!(windows[1].title, "Google Chrome");
}

#[test]
fn classifies_pure_x11_session() {
    assert_eq!(classify_desktop_session(Some(":0"), None), LinuxDesktopSession::X11 { display: ":0".to_string() });
}

#[test]
fn classifies_xwayland_session() {
    assert_eq!(
        classify_desktop_session(Some(":1"), Some("wayland-0")),
        LinuxDesktopSession::WaylandWithX11 { wayland_display: "wayland-0".to_string(), x11_display: ":1".to_string() }
    );
}

#[test]
fn classifies_pure_wayland_session() {
    assert_eq!(
        classify_desktop_session(None, Some("wayland-1")),
        LinuxDesktopSession::WaylandOnly { wayland_display: "wayland-1".to_string() }
    );
}

#[test]
fn classifies_blank_variables_as_headless() {
    assert_eq!(classify_desktop_session(Some("  "), Some("")), LinuxDesktopSession::Headless);
    assert_eq!(classify_desktop_session(Some(" :2 "), None), LinuxDesktopSession::X11 { display: ":2".to_string() });
}

#[test]
fn normalizes_display_with_screen_number() {
    assert_eq!(normalize_display(":1"), ":1.0");
    assert_eq!(normalize_display(":1.0"), ":1.0");
}

#[test]
fn default_audio_input_falls_back_without_discovery() {
    assert_eq!(
        resolve_audio_input_from_snapshot(DEFAULT_AUDIO_INPUT_ID, None).expect("default input should still resolve"),
        "default"
    );
}

#[test]
fn explicit_audio_input_is_preserved_without_discovery() {
    assert_eq!(
        resolve_audio_input_from_snapshot("alsa_input.usb-mic", None).expect("explicit input should be preserved"),
        "alsa_input.usb-mic"
    );
}

#[test]
fn builds_wayland_gstreamer_args_without_microphone_branch() {
    let output_path = "/tmp/record-screen-wayland-no-mic.mp4";
    let options = options(output_path, "1080p / 30 fps", false, false, "full-desktop", DEFAULT_AUDIO_INPUT_ID);
    let plan = WaylandPortalRuntimePlan {
        target_label: "Wayland ScreenCast selection".to_string(),
        encoder_label: "gstreamer / pipewiresrc · x264".to_string(),
        encoder_plan: x264_plan("veryfast", "8000", "30"),
        stream_node_id: 77,
        stream_target_id: Some("0".to_string()),
        width: 1920,
        height: 1080,
        fps: 30,
        microphone_device: None,
    };
    let args = build_wayland_gstreamer_args(&options, &plan).expect("wayland args should build");
    let joined = args.join(" ");
    assert!(joined.contains("pipewiresrc fd=3 path=77 autoconnect=true"));
    assert!(joined.contains("always-copy=true"));
    assert!(joined.contains("video/x-raw,width=1920,height=1080,framerate=30/1"));
    assert!(joined.contains("x264enc speed-preset=veryfast"));
    assert!(joined.contains("bitrate=8000"));
    assert!(joined.contains("mp4mux name=mux faststart=true"));
    assert!(joined.contains(&format!("location={}", output_path)));
    assert!(!joined.contains("pulsesrc"));
    assert!(!joined.contains("mux.audio_0"));
}

#[test]
fn builds_wayland_gstreamer_args_with_explicit_microphone_branch() {
    let options = options(
        "/tmp/record-screen-wayland-with-mic.mp4",
        "1080p / 60 fps",
        true,
        false,
        "full-desktop",
        "alsa_input.usb-Blue_Yeti",
    );
    let plan = WaylandPortalRuntimePlan {
        target_label: "Wayland ScreenCast selection".to_string(),
        encoder_label: "gstreamer / pipewiresrc · x264".to_string(),
        encoder_plan: x264_plan("superfast", "12000", "60"),
        stream_node_id: 9,
        stream_target_id: Some("0".to_string()),
        width: 1920,
        height: 1080,
        fps: 60,
        microphone_device: Some("alsa_input.usb-Blue_Yeti".to_string()),
    };
    let args = build_wayland_gstreamer_args(&options, &plan).expect("wayland args should build");
    let joined = args.join(" ");
    assert!(joined.contains("autoconnect=true"));
    assert!(joined.contains("path=9"));
    assert!(joined.contains("always-copy=true"));
    assert!(joined.contains("framerate=60/1"));
    assert!(joined.contains("speed-preset=superfast"));
    assert!(joined.contains("bitrate=12000"));
    assert!(joined.contains("pulsesrc do-timestamp=true device=alsa_input.usb-Blue_Yeti"));
    assert!(joined.contains("voaacenc bitrate=192000"));
    assert!(joined.contains("mux.audio_0"));
}

#[test]
fn maps_quality_to_expected_wayland_bitrate() {
    assert_eq!(gst_bitrate_for_quality("720p / 30 fps"), 4_000);
    assert_eq!(gst_bitrate_for_quality("1080p / 30 fps"), 8_000);
    assert_eq!(gst_bitrate_for_quality("1080p / 60 fps"), 12_000);
    assert_eq!(gst_bitrate_for_quality("1440p / 60 fps"), 18_000);
    assert_eq!(gst_bitrate_for_quality("4K / 60 fps"), 30_000);
}

#[test]
fn maps_quality_to_settings_and_cpu_preset() {
    assert_eq!(quality_settings("720p / 30 fps"), (1280, 720, 30));
    assert_eq!(quality_settings("unknown"), (1920, 1080, 60));
    assert_eq!(cpu_preset_for_quality("4K / 60 fps"), "ultrafast");
    assert_eq!(cpu_preset_for_quality("1080p / 60 fps"), "superfast");
    assert_eq!(cpu_preset_for_quality("720p / 30 fps"), "veryfast");
    assert_eq!(gst_bitrate_for_quality("unknown"), 8_000);
}

#[test]
fn native_portal_backend_is_available_for_pure_wayland_when_requirements_exist() {
    let availability = portal_backend_availability_for(&wayland_only(), portal_available(), PipeWireGstreamerSupport::Available);
    assert!(matches!(availability, CaptureBackendAvailability::Available));
}

#[test]
fn native_portal_backend_is_unavailable_for_xwayland_sessions() {
    let availability = portal_backend_availability_for(&xwayland(), portal_available(), PipeWireGstreamerSupport::Available);
    assert!(matches!(availability, CaptureBackendAvailability::Unavailable { .. }));
}

#[test]
fn portal_backend_names_missing_plugins() {
    let availability = portal_backend_availability_for(&wayland_only(), portal_available(), PipeWireGstreamerSupport::Missing);
    assert_eq!(
        availability,
        CaptureBackendAvailability::Unavailable {
            reason: "Wayland session wayland-0 can reach the ScreenCast portal, but the required GStreamer PipeWire plugins are missing.".to_string()
        }
    );
}

#[test]
fn x11_gstreamer_backend_is_available_for_xwayland_sessions_when_requirements_exist() {
    let availability = x11_gstreamer_backend_availability_for(&xwayland(), X11GstreamerSupport::Available);
    assert!(matches!(availability, CaptureBackendAvailability::Available));
}

#[test]
fn pure_wayland_selection_prefers_native_audio_and_encoder_backends() {
    assert!(matches!(audio_availability_for(&wayland_only(), true), AudioBackendAvailability::Available));
    let none = GstreamerEncoderSupport { nvh264enc: false, x264enc: false, vaapih264enc: false };
    assert!(matches!(
        encoder_availability_for(&wayland_only(), PipeWireGstreamerSupport::Available, false, false, none),
        EncoderBackendAvailability::Available
    ));
}

#[test]
fn parses_server_name_from_pactl_info() {
    let sample = r#"
Server String: /run/user/1000/pulse/native
Library Protocol Version: 35
Server Protocol Version: 35
Is Local: yes
Server Name: PulseAudio (on PipeWire 1.0.3)
"#;
    assert_eq!(parse_pactl_server_name(sample).as_deref(), Some("PulseAudio (on PipeWire 1.0.3)"));
}

#[test]
fn rejects_missing_server_name() {
    assert!(parse_pactl_server_name("Server String: foo").is_none());
}

#[test]
fn parses_short_names_from_pactl_list() {
    let sample = "42\talsa_input.usb-Blue_Yeti\tPipeWire\t...\n43\talsa_output.pci.monitor\tPipeWire\t...";
    let items = parse_pactl_short_names(sample);
    assert_eq!(items.len(), 2);
    assert_eq!(items[0], "alsa_input.usb-Blue_Yeti");
    assert_eq!(items[1], "alsa_output.pci.monitor");
}

#[test]
fn parses_wpctl_server_name() {
    let sample = "PipeWire 'pipewire-0' [1.0.5, user@host, cookie:123]\n └─ Clients:";
    assert_eq!(parse_wpctl_server_name(sample).as_deref(), Some("PipeWire 'pipewire-0' [1.0.5, user@host, cookie:123]"));
}

#[test]
fn parses_wpctl_sources_and_sinks() {
    let sample = r#"
PipeWire 'pipewire-0' [1.0.5, user@host, cookie:123]

Audio
 ├─ Sinks:
 │  *   49. Built-in Audio Analog Stereo        [vol: 0.49]
 │      51. HDA NVidia Digital Stereo (HDMI)    [vol: 0.40]
 │
 ├─ Sources:
 │  *   50. Built-in Audio Analog Stereo        [vol: 0.13]
 │
Video
"#;
    let sinks = parse_wpctl_status_entries(sample, "Sinks:");
    let sources = parse_wpctl_status_entries(sample, "Sources:");
    assert_eq!(sinks.len(), 2);
    assert_eq!(sinks[0].id, 49);
    assert_eq!(sinks[0].label, "Built-in Audio Analog Stereo");
    assert_eq!(sources.len(), 1);
    assert_eq!(sources[0].id, 50);
    assert_eq!(sources[0].label, "Built-in Audio Analog Stereo");
}

#[test]
fn parses_wpctl_node_name() {
    let sample = r#"
id 50, type PipeWire:Interface:Node
  * media.class = "Audio/Source"
  * node.description = "Built-in Audio Analog Stereo"
  * node.name = "alsa_input.pci-0000_00_1f.3.analog-stereo"
"#;
    assert_eq!(parse_wpctl_node_name(sample).as_deref(), Some("alsa_input.pci-0000_00_1f.3.analog-stereo"));
}

#[test]
fn pure_wayland_audio_availability_can_be_available() {
    assert!(matches!(audio_availability_for(&wayland_only(), true), AudioBackendAvailability::Available));
}

#[test]
fn headless_audio_is_unavailable() {
    assert!(matches!(
        audio_availability_for(&LinuxDesktopSession::Headless, true),
        AudioBackendAvailability::Unavailable { .. }
    ));
}

#[test]
fn audio_report_prefers_non_monitor_input_and_summarizes() {
    let report = LinuxAudioRuntimeReport {
        server_name: Some("PulseAudio".to_string()),
        sources: vec!["alsa_output.pci.monitor".to_string(), "alsa_input.usb".to_string()],
        sinks: vec!["alsa_output.pci".to_string()],
    };
    assert_eq!(preferred_input_source_name(Some(&report)).as_deref(), Some("alsa_input.usb"));
    assert_eq!(preferred_monitor_source_name(Some(&report)).as_deref(), Some("alsa_output.pci.monitor"));
    assert_eq!(
        runtime_summary(Some(&report)).as_deref(),
        Some("Linux audio server reports `PulseAudio`, 2 sources and 1 sink detected, preferred input source `alsa_input.usb`, preferred monitor source `alsa_output.pci.monitor`")
    );
}

#[test]
fn runtime_report_falls_back_to_wpctl_inputs() {
    let wpctl = vec![
        AudioInputOption { id: "mic".to_string(), label: "Mic".to_string(), description: String::new(), kind: AudioInputKind::Microphone },
        AudioInputOption { id: "speakers.monitor".to_string(), label: "Speakers".to_string(), description: String::new(), kind: AudioInputKind::System },
    ];
    let report = runtime_report(None, None, vec![], vec![], &wpctl, false).expect("report");
    assert_eq!(report.sources, vec!["mic".to_string()]);
    assert_eq!(report.sinks, vec!["speakers".to_string()]);
    assert!(runtime_report(None, None, vec![], vec![], &vec![], false).is_none());
}

#[test]
fn discovered_inputs_mark_monitor_sources_as_system_audio() {
    let inputs = discovered_audio_inputs(&vec!["mic".to_string(), "out.monitor".to_string()], &vec![], &vec![]);
    assert_eq!(inputs.len(), 2);
    assert_eq!(inputs[0].kind, AudioInputKind::Microphone);
    assert_eq!(inputs[0].description, "PulseAudio source: mic");
    assert_eq!(inputs[1].kind, AudioInputKind::System);
    assert_eq!(inputs[1].label, "System audio · out.monitor");
}

#[test]
fn builds_x11_gstreamer_args_with_audio_mix() {
    let mut options = options("/tmp/x11-gst.mp4", "1080p / 60 fps", true, true, FULL_DESKTOP_TARGET_ID, "alsa_input.usb-Blue_Yeti");
    options.region_x = 0;
    options.region_y = 0;
    options.region_width = 0;
    options.region_height = 0;
    let plan = X11GstreamerRuntimePlan {
        target_label: "Full desktop".to_string(),
        encoder_label: "gstreamer / ximagesrc · x264".to_string(),
        encoder_plan: x264_plan("superfast", "12000", "60"),
        display_name: ":1.0".to_string(),
        origin_x: 0,
        origin_y: 0,
        source_width: Some(1920),
        source_height: Some(1080),
        output_width: 1920,
        output_height: 1080,
        fps: 60,
        microphone_device: Some("alsa_input.usb-Blue_Yeti".to_string()),
        system_audio_device: Some("alsa_output.pci.monitor".to_string()),
    };
    let joined = build_x11_gstreamer_args(&options, &plan).expect("x11 gst args should build").join(" ");
    assert!(joined.contains("ximagesrc"));
    assert!(joined.contains("display-name=:1.0"));
    assert!(joined.contains("startx=0"));
    assert!(joined.contains("endx=1919"));
    assert!(joined.contains("framerate=60/1"));
    assert!(joined.contains("x264enc speed-preset=superfast"));
    assert!(joined.contains("pulsesrc do-timestamp=true device=alsa_input.usb-Blue_Yeti"));
    assert!(joined.contains("pulsesrc do-timestamp=true device=alsa_output.pci.monitor"));
    assert!(joined.contains("audiomixer name=amix"));
}

#[test]
fn preferred_encoder_label_uses_supported_known_values() {
    for support in [
        GstreamerEncoderSupport { nvh264enc: false, x264enc: false, vaapih264enc: false },
        GstreamerEncoderSupport { nvh264enc: true, x264enc: false, vaapih264enc: true },
        GstreamerEncoderSupport { nvh264enc: false, x264enc: false, vaapih264enc: true },
    ] {
        let label = preferred_encoder_label(support);
        assert!(label.is_none() || matches!(label.as_deref(), Some("VAAPI H.264") | Some("NVENC H.264") | Some("x264")));
    }
    assert_eq!(
        preferred_encoder_label(GstreamerEncoderSupport { nvh264enc: true, x264enc: false, vaapih264enc: true }).as_deref(),
        Some("NVENC H.264")
    );
}

#[test]
fn pure_wayland_encoder_availability_can_be_available() {
    let none = GstreamerEncoderSupport { nvh264enc: false, x264enc: false, vaapih264enc: false };
    assert!(matches!(
        encoder_availability_for(&wayland_only(), PipeWireGstreamerSupport::Available, false, false, none),
        EncoderBackendAvailability::Available
    ));
}

#[test]
fn encoder_plan_label_matches_supported_known_values() {
    let plan = encoder_plan_for_quality("1080p / 60 fps", GstreamerEncoderSupport { nvh264enc: false, x264enc: false, vaapih264enc: true });
    assert!(
        plan.is_none()
            || matches!(plan.as_ref().map(|plan| plan.label.as_str()), Some("NVENC H.264") | Some("x264") | Some("VAAPI H.264"))
    );
    let plan = plan.expect("vaapi plan");
    assert_eq!(plan.property_args, vec!["bitrate=12000".to_string(), "keyframe-period=60".to_string()]);
}

#[test]
fn prefers_x264_when_x264_and_nvenc_are_both_available() {
    let plan = encoder_plan_for_quality("1080p / 30 fps", GstreamerEncoderSupport { nvh264enc: true, x264enc: true, vaapih264enc: false })
        .expect("expected a preferred encoder plan");
    assert_eq!(plan.element_name, "x264enc");
    assert_eq!(plan.label, "x264");
}

#[test]
fn parses_first_integer_from_gdbus_output() {
    assert_eq!(parse_first_u32("(<'u', uint32 3>,)").as_ref(), Some(&3_u32));
    assert_eq!(parse_first_u32("(uint32 7,)").as_ref(), Some(&7_u32));
    assert_eq!(parse_first_u32("no digits"), None);
}

#[test]
fn describes_portal_source_types() {
    assert_eq!(describe_source_types(1), "monitor sharing");
    assert_eq!(describe_source_types(3), "monitor sharing and window sharing");
    assert_eq!(describe_source_types(0), "no source types");
}

#[test]
fn describes_cursor_modes() {
    assert_eq!(describe_cursor_modes(2), "embedded cursor");
    assert_eq!(describe_cursor_modes(6), "embedded cursor and cursor metadata");
}

#[test]
fn joins_items_like_human_copy() {
    assert_eq!(join_items(&["a"]), "a");
    assert_eq!(join_items(&["a", "b"]), "a and b");
    assert_eq!(join_items(&["a", "b", "c"]), "a, b and c");
}

#[test]
fn probe_enum_is_constructible() {
    let probe = ScreenCastPortalProbe::MissingPortal;
    assert!(matches!(probe, ScreenCastPortalProbe::MissingPortal));
}

#[test]
fn renders_pipewire_support_copy() {
    assert!(pipewire_support_copy(PipeWireFfmpegSupport::Available).contains("ffmpeg"));
    assert!(pipewire_support_copy(PipeWireFfmpegSupport::Missing).contains("PipeWire"));
    assert!(pipewire_support_copy(PipeWireFfmpegSupport::Unknown).contains("unknown"));
}

#[test]
fn parses_request_handle_from_gdbus_call() {
    assert_eq!(
        parse_request_handle("('/org/freedesktop/portal/desktop/request/1_42/rs_req',)"),
        Some("/org/freedesktop/portal/desktop/request/1_42/rs_req".to_string())
    );
}

#[test]
fn parses_session_and_restore_token_from_response() {
    let response = "signal time=1 sender=:1.20 -> destination=:1.200 serial=55 path=/org/freedesktop/portal/desktop/request/1_20/rs_req; interface=org.freedesktop.portal.Request; member=Response\n   uint32 0\n   array [\n      dict entry(\n         string \"session_handle\"\n         variant             objectpath '/org/freedesktop/portal/desktop/session/1_20/rs_session'\n      )\n      dict entry(\n         string \"restore_token\"\n         variant             string \"restore-123\"\n      )\n   ]";
    assert_eq!(
        parse_session_handle_from_response(response),
        Some("/org/freedesktop/portal/desktop/session/1_20/rs_session".to_string())
    );
    assert_eq!(parse_restore_token_from_response(response), Some("restore-123".to_string()));
}

#[test]
fn parses_stream_node_ids_from_start_response() {
    let response = "signal time=1 sender=:1.20 -> destination=:1.200 serial=77 path=/org/freedesktop/portal/desktop/request/1_20/rs_start; interface=org.freedesktop.portal.Request; member=Response\n   uint32 0\n   array [\n      dict entry(\n         string \"session_handle\"\n         variant             objectpath '/org/freedesktop/portal/desktop/session/1_20/rs_session'\n      )\n      dict entry(\n         string \"streams\"\n         variant             array [\n               struct {\n                  uint32 58\n                  array [\n                     dict entry(\n                        string \"source_type\"\n                        variant                            uint32 1\n                     )\n                  ]\n               }\n               struct {\n                  uint32 73\n                  array [\n                     dict entry(\n                        string \"source_type\"\n                        variant                            uint32 2\n                     )\n                  ]\n               }\n            ]\n      )\n   ]";
    assert_eq!(parse_stream_node_ids_from_response(response), vec![58, 73]);
    let start = parse_start_response(response).expect("expected parsed start response");
    assert_eq!(start.session_handle, "/org/freedesktop/portal/desktop/session/1_20/rs_session");
    assert_eq!(start.stream_node_ids, vec![58, 73]);
}

#[test]
fn builds_gdbus_command_plan_for_lifecycle() {
    let plan = command_plan("request-1", "session-1");
    assert!(plan.create_session.iter().any(|item| item.contains("CreateSession")));
    assert!(plan.select_sources.iter().any(|item| item.contains("SelectSources")));
    assert!(plan.start.iter().any(|item| item.contains("Start")));
    assert!(plan.open_pipewire_remote.iter().any(|item| item.contains("OpenPipeWireRemote")));
    assert_eq!(plan.select_sources[8], "/org/freedesktop/portal/desktop/session/unknown/session-1");
}

#[test]
fn portal_response_codes_explain_failures() {
    assert!(ensure_portal_success("Start", 0).is_ok());
    assert_eq!(
        ensure_portal_success("Start", 1),
        Err(CaptureError::BackendUnavailable(
            "ScreenCast portal Start failed with response code 1: the portal denied the request or the user dismissed the picker".to_string()
        ))
    );
}

#[test]
fn resolves_monitor_and_custom_region_targets() {
    let monitors: Vec<MonitorDescriptor> = parse_monitors(
        "Monitors: 2\n 0: +*DP-1 1920/600x1080/330+0+0  DP-1\n 1: +HDMI-0 1920/600x1080/330+1920+0  HDMI-0\n",
    );
    let windows: Result<Vec<WindowDescriptor>, CaptureError> = Ok(vec![]);
    let full = resolve_target_with_monitors(&options("/tmp/a.mp4", "1080p / 30 fps", false, false, FULL_DESKTOP_TARGET_ID, "default"), &monitors, &windows).unwrap();
    assert_eq!(full.video_size, Some((3840, 1080)));
    let hdmi = resolve_target_with_monitors(&options("/tmp/a.mp4", "1080p / 30 fps", false, false, "monitor:HDMI-0", "default"), &monitors, &windows).unwrap();
    assert_eq!((hdmi.origin_x, hdmi.origin_y), (1920, 0));
    let mut region = options("/tmp/a.mp4", "1080p / 30 fps", false, false, "region:custom", "default");
    region.region_width = 10;
    let custom = resolve_target_with_monitors(&region, &monitors, &windows).unwrap();
    assert_eq!(custom.label, "Custom region · 160, 120 · 10 x 720");
    assert_eq!(custom.video_size, Some((64, 720)));
    let missing = resolve_target_with_monitors(&options("/tmp/a.mp4", "1080p / 30 fps", false, false, "monitor:DP-9", "default"), &monitors, &windows);
    assert_eq!(missing.unwrap_err(), CaptureError::BackendUnavailable("the selected monitor `DP-9` is no longer available".to_string()));
}

#[test]
fn lists_targets_with_monitor_placement() {
    let monitors = parse_monitors("Monitors: 1\n 0: +*DP-1 1920/600x1080/330+0+0  DP-1\n");
    let targets = list_capture_targets(Some(&monitors), None);
    assert_eq!(targets.len(), 2);
    assert_eq!(targets[1].id, "monitor:DP-1");
    assert_eq!(targets[1].description, "1920 x 1080 at 0, 0");
}

#[test]
fn describes_x11_failures_from_the_log_tail() {
    let message = describe_gstreamer_x11_failure("line one\n\nERROR: Cannot open display\n");
    assert_eq!(
        message,
        "The GStreamer X11 lane could not access the X11 display. Make sure this app is started inside the desktop session and DISPLAY is exported. Last log: line one | ERROR: Cannot open display"
    );
    assert_eq!(
        describe_gstreamer_x11_failure(""),
        "the X11 GStreamer capture process exited before capture could start."
    );
}

#[test]
fn negotiates_a_portal_session_step_by_step() {
    let sender = normalized_unique_name(":1.42");
    assert_eq!(sender, "1_42");
    let (mut n, create_path) = PortalNegotiation::begin(&sender, "rs_session_1", "rs_create_1");
    assert_eq!(create_path, "/org/freedesktop/portal/desktop/request/1_42/rs_create_1");
    let a = n.step(
        PortalEvent::Responded { code: 0, session_handle: None, restore_token: Some("tok".to_string()), stream_node_ids: vec![] },
        "rs_select_2",
    );
    match a {
        PortalAction::SelectSources { session_handle, request_path, .. } => {
            assert_eq!(session_handle, "/org/freedesktop/portal/desktop/session/1_42/rs_session_1");
            assert_eq!(request_path, "/org/freedesktop/portal/desktop/request/1_42/rs_select_2");
        }
        other => panic!("unexpected {other:?}"),
    }
    assert!(matches!(
        n.step(PortalEvent::Responded { code: 0, session_handle: None, restore_token: None, stream_node_ids: vec![] }, "rs_start_3"),
        PortalAction::Start { .. }
    ));
    assert!(matches!(
        n.step(PortalEvent::Responded { code: 0, session_handle: None, restore_token: None, stream_node_ids: vec![57, 58] }, ""),
        PortalAction::OpenPipeWireRemote { .. }
    ));
    assert!(matches!(n.step(PortalEvent::RemoteOpened, ""), PortalAction::Finish));
    assert_eq!(n.stage, NegotiationStage::Finished);
    assert_eq!(n.restore_token.as_deref(), Some("tok"));
    assert_eq!(
        runtime_pending_copy(&n.stream_node_ids, n.restore_token.as_deref()),
        "The ScreenCast portal session was negotiated successfully and returned PipeWire stream node IDs [57, 58]. The portal also opened a PipeWire remote file descriptor, but the recorder does not ingest that fd into a live Wayland capture pipeline yet. Restore token `tok` was issued by the portal."
    );
}

#[test]
fn portal_negotiation_stops_on_refusal_and_missing_streams() {
    let (mut n, _) = PortalNegotiation::begin("1_2", "s", "c");
    match n.step(PortalEvent::Responded { code: 1, session_handle: None, restore_token: None, stream_node_ids: vec![] }, "x") {
        PortalAction::Fail(CaptureError::BackendUnavailable(m)) => assert_eq!(
            m,
            "ScreenCast portal CreateSession failed with response code 1: the portal denied the request or the user dismissed the picker"
        ),
        other => panic!("unexpected {other:?}"),
    }
    assert_eq!(n.stage, NegotiationStage::Failed);
    let (mut n, _) = PortalNegotiation::begin("1_2", "s", "c");
    let ok = || PortalEvent::Responded { code: 0, session_handle: None, restore_token: None, stream_node_ids: vec![] };
    n.step(ok(), "a");
    n.step(ok(), "b");
    match n.step(ok(), "c") {
        PortalAction::Fail(CaptureError::BackendUnavailable(m)) => {
            assert_eq!(m, "ScreenCast portal Start succeeded but did not return any PipeWire stream nodes.")
        }
        other => panic!("unexpected {other:?}"),
    }
}
