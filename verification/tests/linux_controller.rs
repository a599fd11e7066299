use record_screen::capture::CaptureError;
use record_screen::linux::controller::{
    startup_check, ControllerOp, ControllerStage, ControllerStep, LinuxCaptureController, ProcessExit, ProcessSignal,
    StartupCheck, STARTUP_POLL_ATTEMPTS,
};
use record_screen::linux::encoder::GstreamerEncoderSupport;
use record_screen::linux::runtime::LinuxCaptureProcessKind;
use record_screen::linux::{x11_gstreamer_support, X11GstreamerSupport};

fn controller() -> LinuxCaptureController {
    LinuxCaptureController::new(LinuxCaptureProcessKind::GstreamerX11, "/tmp/out.mp4".to_string(), 1_000)
}

fn interrupted_exit() -> ProcessExit {
    ProcessExit { success: false, interrupted: true, status_text: "signal: 2 (SIGINT)".to_string() }
}

#[test]
fn pause_then_resume_sends_stop_and_continue() {
    let mut c = controller();
    assert!(matches!(c.request(ControllerOp::Pause), ControllerStep::Signal(ProcessSignal::Suspend)));
    assert!(matches!(c.signal_sent(true), ControllerStep::Done(Ok(None))));
    assert!(c.paused);
    assert!(matches!(c.request(ControllerOp::Pause), ControllerStep::Done(Ok(None))));
    assert!(matches!(c.request(ControllerOp::Resume), ControllerStep::Signal(ProcessSignal::Continue)));
    assert!(matches!(c.signal_sent(true), ControllerStep::Done(Ok(None))));
    assert!(!c.paused);
    assert_eq!(c.stage, ControllerStage::Idle);
}

#[test]
fn failed_pause_signal_reports_sigstop() {
    let mut c = controller();
    c.request(ControllerOp::Pause);
    match c.signal_sent(false) {
        ControllerStep::Done(Err(CaptureError::SignalFailed(m))) => assert_eq!(m, "failed to send SIGSTOP"),
        other => panic!("unexpected step {other:?}"),
    }
    assert!(!c.paused);
}

#[test]
fn stopping_a_paused_process_continues_it_first_and_keeps_the_recording() {
    let mut c = controller();
    c.request(ControllerOp::Pause);
    c.signal_sent(true);
    assert!(matches!(c.request(ControllerOp::Stop), ControllerStep::Signal(ProcessSignal::Continue)));
    assert!(matches!(c.signal_sent(true), ControllerStep::Signal(ProcessSignal::Interrupt)));
    assert!(matches!(c.signal_sent(true), ControllerStep::Wait));
    assert!(matches!(c.waited(Ok(interrupted_exit()), ""), ControllerStep::Inspect));
    let artifact = match c.inspected(Ok(4096), 6_000, "") {
        ControllerStep::Done(Ok(Some(a))) => a,
        other => panic!("unexpected step {other:?}"),
    };
    assert_eq!(artifact.output_path, "/tmp/out.mp4");
    assert_eq!(artifact.duration_nanos, 5_000);
    assert_eq!(artifact.bytes_written, 4096);
    match c.request(ControllerOp::Stop) {
        ControllerStep::Done(Ok(Some(again))) => assert_eq!(again.finished_at, 6_000),
        other => panic!("unexpected step {other:?}"),
    }
    assert!(matches!(c.request(ControllerOp::Poll), ControllerStep::Done(Ok(Some(_)))));
}

#[test]
fn failed_interrupt_reports_sigint() {
    let mut c = controller();
    c.request(ControllerOp::Stop);
    match c.signal_sent(false) {
        ControllerStep::Done(Err(CaptureError::StopFailed(m))) => assert_eq!(m, "failed to send SIGINT to gst-launch"),
        other => panic!("unexpected step {other:?}"),
    }
}

#[test]
fn unexpected_exit_status_is_described() {
    let mut c = controller();
    c.request(ControllerOp::Stop);
    c.signal_sent(true);
    let exit = ProcessExit { success: false, interrupted: false, status_text: "exit status: 1".to_string() };
    match c.waited(Ok(exit), "ERROR: cannot open display :0") {
        ControllerStep::Done(Err(CaptureError::StopFailed(m))) => {
            assert!(m.starts_with("capture process exited with status exit status: 1: "));
            assert!(m.contains("could not access the X11 display"));
        }
        other => panic!("unexpected step {other:?}"),
    }
}

#[test]
fn empty_output_is_an_error_and_clock_skew_gives_zero_duration() {
    let mut c = controller();
    c.request(ControllerOp::Poll);
    assert!(matches!(c.polled(Ok(Some(interrupted_exit())), ""), ControllerStep::Inspect));
    match c.inspected(Ok(0), 2_000, "") {
        ControllerStep::Done(Err(CaptureError::StopFailed(m))) => {
            assert!(m.starts_with("the X11 GStreamer pipeline exited without writing media data. "))
        }
        other => panic!("unexpected step {other:?}"),
    }
    c.request(ControllerOp::Poll);
    c.polled(Ok(Some(interrupted_exit())), "");
    match c.inspected(Ok(10), 500, "") {
        ControllerStep::Done(Ok(Some(a))) => assert_eq!(a.duration_nanos, 0),
        other => panic!("unexpected step {other:?}"),
    }
}

#[test]
fn polling_a_running_process_reports_nothing() {
    let mut c = controller();
    assert!(matches!(c.request(ControllerOp::Poll), ControllerStep::TryWait));
    assert!(matches!(c.polled(Ok(None), ""), ControllerStep::Done(Ok(None))));
    assert_eq!(c.stage, ControllerStage::Idle);
}

#[test]
fn unreadable_output_is_an_inspection_error() {
    let mut c = controller();
    c.request(ControllerOp::Poll);
    c.polled(Ok(Some(ProcessExit { success: true, interrupted: false, status_text: "exit status: 0".to_string() })), "");
    match c.inspected(Err("No such file or directory".to_string()), 2_000, "") {
        ControllerStep::Done(Err(CaptureError::OutputInspectionFailed(m))) => assert_eq!(m, "No such file or directory"),
        other => panic!("unexpected step {other:?}"),
    }
}

#[test]
fn x11_lane_needs_ximagesrc_mp4mux_and_an_encoder() {
    let x264 = GstreamerEncoderSupport { nvh264enc: false, x264enc: true, vaapih264enc: false };
    let none = GstreamerEncoderSupport { nvh264enc: false, x264enc: false, vaapih264enc: false };
    assert_eq!(x11_gstreamer_support(true, true, x264), X11GstreamerSupport::Available);
    assert_eq!(x11_gstreamer_support(true, true, none), X11GstreamerSupport::Missing);
    assert_eq!(x11_gstreamer_support(false, true, x264), X11GstreamerSupport::Missing);
    assert_eq!(x11_gstreamer_support(true, false, x264), X11GstreamerSupport::Missing);
}

#[test]
fn startup_check_waits_six_polls_and_reports_early_exit() {
    let kind = LinuxCaptureProcessKind::GstreamerWayland;
    assert_eq!(STARTUP_POLL_ATTEMPTS, 6);
    assert!(matches!(startup_check(kind, 1, Ok(false), ""), StartupCheck::PollAgain));
    assert!(matches!(startup_check(kind, 6, Ok(false), ""), StartupCheck::Started));
    match startup_check(kind, 2, Ok(true), "") {
        StartupCheck::Failed(CaptureError::SpawnFailed(m)) => {
            assert_eq!(m, "the Wayland GStreamer capture process exited before capture could start.")
        }
        other => panic!("unexpected verdict {other:?}"),
    }
    match startup_check(kind, 3, Err("permission denied".to_string()), "") {
        StartupCheck::Failed(CaptureError::SpawnFailed(m)) => assert_eq!(m, "permission denied"),
        other => panic!("unexpected verdict {other:?}"),
    }
}
