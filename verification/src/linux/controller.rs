//! Control of a running `gst-launch-1.0` capture process: pausing and
//! resuming it by signals, stopping it, noticing that it ended, and turning
//! the file it wrote into a recording. The caller sends the signals, waits
//! on the process and reads the file's size; the controller decides what
//! comes next and what the user is told.
use vstd::prelude::*;
use vstd::string::*;
use crate::capture::{error_text, CaptureError, RecordingArtifact};
use crate::linux::runtime::{describe_process_failure, unicode_lowercase, wayland_failure_spec, x11_failure_spec,
    LinuxCaptureProcessKind};
use crate::text::push_str;

verus! {

/// What the caller asked of the capture process.
#[derive(Debug, Clone, Copy, PartialEq, Eq, Structural)]
pub enum ControllerOp {
    Pause,
    Resume,
    Stop,
    Poll,
}

/// A signal to send to the capture process: SIGSTOP, SIGCONT or SIGINT.
#[derive(Debug, Clone, Copy, PartialEq, Eq, Structural)]
pub enum ProcessSignal {
    Suspend,
    Continue,
    Interrupt,
}

/// Which answer the controller waits for.
#[derive(Debug, Clone, Copy, PartialEq, Eq, Structural)]
pub enum ControllerStage {
    Idle,
    Suspending,
    Continuing,
    ContinuingBeforeStop,
    Interrupting,
    Waiting,
    Polling,
    Inspecting,
}

/// How the capture process ended: whether it succeeded, whether SIGINT or
/// SIGTERM ended it, and its exit status as text.
#[derive(Debug)]
pub struct ProcessExit {
    pub success: bool,
    pub interrupted: bool,
    pub status_text: String,
}

/// What the caller does next: send a signal, wait for the process to end,
/// check without blocking whether it ended, read the size of the output
/// file, or take the outcome of the operation.
#[derive(Debug)]
pub enum ControllerStep {
    Signal(ProcessSignal),
    Wait,
    TryWait,
    Inspect,
    Done(Result<Option<RecordingArtifact>, CaptureError>),
}

/// A capture process under control.
#[derive(Debug)]
pub struct LinuxCaptureController {
    pub kind: LinuxCaptureProcessKind,
    pub output_path: String,
    pub started_at: u128,
    pub paused: bool,
    pub finished_artifact: Option<RecordingArtifact>,
    pub stage: ControllerStage,
}

pub struct ArtifactView {
    pub output_path: Seq<char>,
    pub started_at: u128,
    pub finished_at: u128,
    pub duration_nanos: u128,
    pub bytes_written: u64,
}

pub open spec fn artifact_view(a: RecordingArtifact) -> ArtifactView {
    ArtifactView {
        output_path: a.output_path@,
        started_at: a.started_at,
        finished_at: a.finished_at,
        duration_nanos: a.duration_nanos,
        bytes_written: a.bytes_written,
    }
}

pub open spec fn opt_artifact(a: Option<RecordingArtifact>) -> Option<ArtifactView> {
    match a {
        Some(x) => Some(artifact_view(x)),
        None => None,
    }
}

pub struct ControllerView {
    pub kind: LinuxCaptureProcessKind,
    pub output_path: Seq<char>,
    pub started_at: u128,
    pub paused: bool,
    pub finished_artifact: Option<ArtifactView>,
    pub stage: ControllerStage,
}

impl View for LinuxCaptureController {
    type V = ControllerView;

    open spec fn view(&self) -> ControllerView {
        ControllerView {
            kind: self.kind,
            output_path: self.output_path@,
            started_at: self.started_at,
            paused: self.paused,
            finished_artifact: opt_artifact(self.finished_artifact),
            stage: self.stage,
        }
    }
}

/// A step, with an error taken by the text it displays.
pub enum StepView {
    Signal(ProcessSignal),
    Wait,
    TryWait,
    Inspect,
    Done(Result<Option<ArtifactView>, Seq<char>>),
}

impl View for ControllerStep {
    type V = StepView;

    open spec fn view(&self) -> StepView {
        match self {
            ControllerStep::Signal(s) => StepView::Signal(*s),
            ControllerStep::Wait => StepView::Wait,
            ControllerStep::TryWait => StepView::TryWait,
            ControllerStep::Inspect => StepView::Inspect,
            ControllerStep::Done(Ok(a)) => StepView::Done(Ok(opt_artifact(*a))),
            ControllerStep::Done(Err(e)) => StepView::Done(Err(error_text(*e))),
        }
    }
}

pub open spec fn at(v: ControllerView, stage: ControllerStage) -> ControllerView {
    ControllerView { stage, ..v }
}

pub open spec fn done_ok(a: Option<ArtifactView>) -> StepView {
    StepView::Done(Ok(a))
}

pub open spec fn signal_failed(m: Seq<char>) -> StepView {
    StepView::Done(Err("failed to pause or resume recording process: "@ + m))
}

pub open spec fn stop_failed(m: Seq<char>) -> StepView {
    StepView::Done(Err("failed to stop recording process: "@ + m))
}

/// What the user is told of a failed capture process of the lane `kind`.
pub open spec fn process_failure(kind: LinuxCaptureProcessKind, log: Seq<char>) -> Seq<char> {
    match kind {
        LinuxCaptureProcessKind::GstreamerX11 => x11_failure_spec(unicode_lowercase(log), log),
        LinuxCaptureProcessKind::GstreamerWayland => wayland_failure_spec(unicode_lowercase(log), log),
    }
}

pub open spec fn lane_name(kind: LinuxCaptureProcessKind) -> Seq<char> {
    match kind {
        LinuxCaptureProcessKind::GstreamerX11 => "X11"@,
        LinuxCaptureProcessKind::GstreamerWayland => "Wayland"@,
    }
}

/// The answer to a request: pausing or resuming what already is so, and
/// stopping or polling a process whose recording is already known, need
/// no signal; stopping a paused process first lets it continue.
pub open spec fn request_spec(v: ControllerView, op: ControllerOp) -> (ControllerView, StepView) {
    match op {
        ControllerOp::Pause => if v.paused {
            (v, done_ok(None))
        } else {
            (at(v, ControllerStage::Suspending), StepView::Signal(ProcessSignal::Suspend))
        },
        ControllerOp::Resume => if !v.paused {
            (v, done_ok(None))
        } else {
            (at(v, ControllerStage::Continuing), StepView::Signal(ProcessSignal::Continue))
        },
        ControllerOp::Stop => if v.finished_artifact is Some {
            (v, done_ok(v.finished_artifact))
        } else if v.paused {
            (at(v, ControllerStage::ContinuingBeforeStop), StepView::Signal(ProcessSignal::Continue))
        } else {
            (at(v, ControllerStage::Interrupting), StepView::Signal(ProcessSignal::Interrupt))
        },
        ControllerOp::Poll => if v.finished_artifact is Some {
            (v, done_ok(v.finished_artifact))
        } else {
            (at(v, ControllerStage::Polling), StepView::TryWait)
        },
    }
}

/// The answer to whether the signal was sent.
pub open spec fn signal_spec(v: ControllerView, ok: bool) -> (ControllerView, StepView) {
    match v.stage {
        ControllerStage::Suspending => if ok {
            (ControllerView { paused: true, stage: ControllerStage::Idle, ..v }, done_ok(None))
        } else {
            (at(v, ControllerStage::Idle), signal_failed("failed to send SIGSTOP"@))
        },
        ControllerStage::Continuing => if ok {
            (ControllerView { paused: false, stage: ControllerStage::Idle, ..v }, done_ok(None))
        } else {
            (at(v, ControllerStage::Idle), signal_failed("failed to send SIGCONT"@))
        },
        ControllerStage::ContinuingBeforeStop => if ok {
            (ControllerView { paused: false, stage: ControllerStage::Interrupting, ..v },
                StepView::Signal(ProcessSignal::Interrupt))
        } else {
            (at(v, ControllerStage::Idle), signal_failed("failed to send SIGCONT"@))
        },
        _ => if ok {
            (at(v, ControllerStage::Waiting), StepView::Wait)
        } else {
            (at(v, ControllerStage::Idle), stop_failed("failed to send SIGINT to gst-launch"@))
        },
    }
}

/// Whether an exit counts as the end of a recording.
pub open spec fn accepted(success: bool, interrupted: bool) -> bool {
    success || interrupted
}

/// The answer to the end of a stopped process.
pub open spec fn waited_spec(
    v: ControllerView,
    exit: Result<(bool, bool, Seq<char>), Seq<char>>,
    log: Seq<char>,
) -> (ControllerView, StepView) {
    match exit {
        Err(e) => (at(v, ControllerStage::Idle), stop_failed(e)),
        Ok((success, interrupted, status)) => if accepted(success, interrupted) {
            (at(v, ControllerStage::Inspecting), StepView::Inspect)
        } else {
            (at(v, ControllerStage::Idle), stop_failed("capture process exited with status "@ + status + ": "@
                + process_failure(v.kind, log)))
        },
    }
}

/// The answer to checking whether the process ended.
pub open spec fn polled_spec(
    v: ControllerView,
    exit: Result<Option<(bool, bool, Seq<char>)>, Seq<char>>,
    log: Seq<char>,
) -> (ControllerView, StepView) {
    match exit {
        Err(e) => (at(v, ControllerStage::Idle), stop_failed(e)),
        Ok(None) => (at(v, ControllerStage::Idle), done_ok(None)),
        Ok(Some((success, interrupted, _))) => if accepted(success, interrupted) {
            (at(v, ControllerStage::Inspecting), StepView::Inspect)
        } else {
            (at(v, ControllerStage::Idle), stop_failed(process_failure(v.kind, log)))
        },
    }
}

/// The recording a process that ended at `finished_at` leaves: its
/// duration counts from the start, and is zero for a clock that went back.
pub open spec fn artifact_spec(v: ControllerView, finished_at: u128, bytes: u64) -> ArtifactView {
    ArtifactView {
        output_path: v.output_path,
        started_at: v.started_at,
        finished_at,
        duration_nanos: if finished_at >= v.started_at { (finished_at - v.started_at) as u128 } else { 0 },
        bytes_written: bytes,
    }
}

/// The answer to the size of the output file: an empty file means the
/// pipeline wrote nothing; otherwise the recording is kept and returned.
pub open spec fn inspected_spec(
    v: ControllerView,
    size: Result<u64, Seq<char>>,
    finished_at: u128,
    log: Seq<char>,
) -> (ControllerView, StepView) {
    match size {
        Err(e) => (at(v, ControllerStage::Idle), StepView::Done(Err("failed to inspect recording output: "@ + e))),
        Ok(bytes) => if bytes == 0 {
            (at(v, ControllerStage::Idle), stop_failed("the "@ + lane_name(v.kind)
                + " GStreamer pipeline exited without writing media data. "@ + process_failure(v.kind, log)))
        } else {
            (ControllerView {
                finished_artifact: Some(artifact_spec(v, finished_at, bytes)),
                stage: ControllerStage::Idle,
                ..v
            }, done_ok(Some(artifact_spec(v, finished_at, bytes))))
        },
    }
}

pub open spec fn exit_view(x: ProcessExit) -> (bool, bool, Seq<char>) {
    (x.success, x.interrupted, x.status_text@)
}

pub open spec fn signal_stage(s: ControllerStage) -> bool {
    s == ControllerStage::Suspending || s == ControllerStage::Continuing
        || s == ControllerStage::ContinuingBeforeStop || s == ControllerStage::Interrupting
}

/// How many times a freshly started process is checked before it counts as
/// running.
pub const STARTUP_POLL_ATTEMPTS: usize = 6;

/// What a startup check concludes: check again, the process runs, or it
/// failed to start.
#[derive(Debug)]
pub enum StartupCheck {
    PollAgain,
    Started,
    Failed(CaptureError),
}

/// The verdict after check number `attempt` (from 1) found whether the
/// process had already exited (or why it could not be checked): an exited
/// process failed to start, and one still running after the last check
/// has started.
pub fn startup_check(kind: LinuxCaptureProcessKind, attempt: usize, exited: Result<bool, String>, stderr_log: &str) -> (r: StartupCheck)
    requires
        1 <= attempt <= STARTUP_POLL_ATTEMPTS,
    ensures
        match exited {
            Err(e) => r matches StartupCheck::Failed(CaptureError::SpawnFailed(m)) && m@ == e@,
            Ok(true) => r matches StartupCheck::Failed(CaptureError::SpawnFailed(m))
                && m@ == process_failure(kind, stderr_log@),
            Ok(false) => if attempt < STARTUP_POLL_ATTEMPTS { r is PollAgain } else { r is Started },
        },
{
    match exited {
        Err(e) => StartupCheck::Failed(CaptureError::SpawnFailed(e)),
        Ok(true) => StartupCheck::Failed(CaptureError::SpawnFailed(describe_process_failure(kind, stderr_log))),
        Ok(false) => if attempt < STARTUP_POLL_ATTEMPTS {
            StartupCheck::PollAgain
        } else {
            StartupCheck::Started
        },
    }
}

fn copy_artifact(a: &RecordingArtifact) -> (r: RecordingArtifact)
    ensures
        artifact_view(r) == artifact_view(*a),
{
    RecordingArtifact {
        output_path: a.output_path.clone(),
        started_at: a.started_at,
        finished_at: a.finished_at,
        duration_nanos: a.duration_nanos,
        bytes_written: a.bytes_written,
    }
}

fn copy_finished(a: &Option<RecordingArtifact>) -> (r: Option<RecordingArtifact>)
    ensures
        opt_artifact(r) == opt_artifact(*a),
{
    match a {
        Some(x) => Some(copy_artifact(x)),
        None => None,
    }
}

fn failed(e: CaptureError) -> (s: ControllerStep)
    ensures
        s@ == StepView::Done(Err(error_text(e))),
{
    ControllerStep::Done(Err(e))
}

fn stop_error(m: String) -> (s: ControllerStep)
    ensures
        s@ == stop_failed(m@),
{
    failed(CaptureError::StopFailed(m))
}

/// Pausing and then resuming a running process, with both signals sent,
/// leaves its control as it was.
pub proof fn law_pause_then_resume(v: ControllerView)
    requires
        v.stage == ControllerStage::Idle,
        !v.paused,
    ensures
        request_spec(v, ControllerOp::Pause).1 == StepView::Signal(ProcessSignal::Suspend),
        signal_spec(request_spec(v, ControllerOp::Pause).0, true).0.paused,
        request_spec(signal_spec(request_spec(v, ControllerOp::Pause).0, true).0, ControllerOp::Resume).1
            == StepView::Signal(ProcessSignal::Continue),
        signal_spec(
            request_spec(signal_spec(request_spec(v, ControllerOp::Pause).0, true).0, ControllerOp::Resume).0,
            true,
        ).0 == v,
{
}

/// Pausing a paused process, or resuming a running one, sends nothing and
/// changes nothing.
pub proof fn law_repeated_pause_or_resume(v: ControllerView)
    requires
        v.stage == ControllerStage::Idle,
    ensures
        v.paused ==> request_spec(v, ControllerOp::Pause) == (v, done_ok(None)),
        !v.paused ==> request_spec(v, ControllerOp::Resume) == (v, done_ok(None)),
{
}

/// Once a recording has been taken from the ended process, stopping or
/// polling again answers with that same recording and asks nothing of the
/// process.
pub proof fn law_finished_recording_is_kept(
    v: ControllerView,
    bytes: u64,
    finished_at: u128,
    log: Seq<char>,
)
    requires
        v.stage == ControllerStage::Inspecting,
        bytes > 0,
    ensures
        ({
            let (w, s) = inspected_spec(v, Ok(bytes), finished_at, log);
            &&& s == done_ok(Some(artifact_spec(v, finished_at, bytes)))
            &&& request_spec(w, ControllerOp::Stop) == (w, s)
            &&& request_spec(w, ControllerOp::Poll) == (w, s)
        }),
{
}

impl LinuxCaptureController {
    /// Control of a process of lane `kind` recording to `output_path` since
    /// `started_at` (nanoseconds since the Unix epoch).
    pub fn new(kind: LinuxCaptureProcessKind, output_path: String, started_at: u128) -> (r: Self)
        ensures
            r@ == (ControllerView {
                kind,
                output_path: output_path@,
                started_at,
                paused: false,
                finished_artifact: None,
                stage: ControllerStage::Idle,
            }),
    {
        LinuxCaptureController {
            kind,
            output_path,
            started_at,
            paused: false,
            finished_artifact: None,
            stage: ControllerStage::Idle,
        }
    }

    /// Starts an operation.
    pub fn request(&mut self, op: ControllerOp) -> (s: ControllerStep)
        requires
            old(self).stage == ControllerStage::Idle,
        ensures
            (final(self)@, s@) == request_spec(old(self)@, op),
    {
        match op {
            ControllerOp::Pause => if self.paused {
                ControllerStep::Done(Ok(None))
            } else {
                self.stage = ControllerStage::Suspending;
                ControllerStep::Signal(ProcessSignal::Suspend)
            },
            ControllerOp::Resume => if !self.paused {
                ControllerStep::Done(Ok(None))
            } else {
                self.stage = ControllerStage::Continuing;
                ControllerStep::Signal(ProcessSignal::Continue)
            },
            ControllerOp::Stop => if self.finished_artifact.is_some() {
                ControllerStep::Done(Ok(copy_finished(&self.finished_artifact)))
            } else if self.paused {
                self.stage = ControllerStage::ContinuingBeforeStop;
                ControllerStep::Signal(ProcessSignal::Continue)
            } else {
                self.stage = ControllerStage::Interrupting;
                ControllerStep::Signal(ProcessSignal::Interrupt)
            },
            ControllerOp::Poll => if self.finished_artifact.is_some() {
                ControllerStep::Done(Ok(copy_finished(&self.finished_artifact)))
            } else {
                self.stage = ControllerStage::Polling;
                ControllerStep::TryWait
            },
        }
    }

    /// Takes whether the signal the last step asked for was sent.
    pub fn signal_sent(&mut self, ok: bool) -> (s: ControllerStep)
        requires
            signal_stage(old(self).stage),
        ensures
            (final(self)@, s@) == signal_spec(old(self)@, ok),
    {
        match self.stage {
            ControllerStage::Suspending => {
                self.stage = ControllerStage::Idle;
                if ok {
                    self.paused = true;
                    ControllerStep::Done(Ok(None))
                } else {
                    failed(CaptureError::SignalFailed(String::from_str("failed to send SIGSTOP")))
                }
            },
            ControllerStage::Continuing => {
                self.stage = ControllerStage::Idle;
                if ok {
                    self.paused = false;
                    ControllerStep::Done(Ok(None))
                } else {
                    failed(CaptureError::SignalFailed(String::from_str("failed to send SIGCONT")))
                }
            },
            ControllerStage::ContinuingBeforeStop => if ok {
                self.paused = false;
                self.stage = ControllerStage::Interrupting;
                ControllerStep::Signal(ProcessSignal::Interrupt)
            } else {
                self.stage = ControllerStage::Idle;
                failed(CaptureError::SignalFailed(String::from_str("failed to send SIGCONT")))
            },
            _ => if ok {
                self.stage = ControllerStage::Waiting;
                ControllerStep::Wait
            } else {
                self.stage = ControllerStage::Idle;
                stop_error(String::from_str("failed to send SIGINT to gst-launch"))
            },
        }
    }

    /// Takes how the stopped process ended (or why waiting failed) and its
    /// error log.
    pub fn waited(&mut self, exit: Result<ProcessExit, String>, stderr_log: &str) -> (s: ControllerStep)
        requires
            old(self).stage == ControllerStage::Waiting,
        ensures
            (final(self)@, s@) == waited_spec(old(self)@, match exit {
                Ok(x) => Ok(exit_view(x)),
                Err(e) => Err(e@),
            }, stderr_log@),
    {
        match exit {
            Err(e) => {
                self.stage = ControllerStage::Idle;
                stop_error(e)
            },
            Ok(x) => if x.success || x.interrupted {
                self.stage = ControllerStage::Inspecting;
                ControllerStep::Inspect
            } else {
                self.stage = ControllerStage::Idle;
                let mut m = String::from_str("capture process exited with status ");
                push_str(&mut m, x.status_text.as_str());
                push_str(&mut m, ": ");
                let why = describe_process_failure(self.kind, stderr_log);
                push_str(&mut m, why.as_str());
                stop_error(m)
            },
        }
    }

    /// Takes whether the process has ended (or why checking failed) and
    /// its error log.
    pub fn polled(&mut self, exit: Result<Option<ProcessExit>, String>, stderr_log: &str) -> (s: ControllerStep)
        requires
            old(self).stage == ControllerStage::Polling,
        ensures
            (final(self)@, s@) == polled_spec(old(self)@, match exit {
                Ok(Some(x)) => Ok(Some(exit_view(x))),
                Ok(None) => Ok(None),
                Err(e) => Err(e@),
            }, stderr_log@),
    {
        match exit {
            Err(e) => {
                self.stage = ControllerStage::Idle;
                stop_error(e)
            },
            Ok(None) => {
                self.stage = ControllerStage::Idle;
                ControllerStep::Done(Ok(None))
            },
            Ok(Some(x)) => if x.success || x.interrupted {
                self.stage = ControllerStage::Inspecting;
                ControllerStep::Inspect
            } else {
                self.stage = ControllerStage::Idle;
                stop_error(describe_process_failure(self.kind, stderr_log))
            },
        }
    }

    /// Takes the size of the output file (or why it could not be read),
    /// the time the process was found ended, and its error log.
    pub fn inspected(&mut self, size: Result<u64, String>, finished_at: u128, stderr_log: &str) -> (s: ControllerStep)
        requires
            old(self).stage == ControllerStage::Inspecting,
        ensures
            (final(self)@, s@) == inspected_spec(old(self)@, match size {
                Ok(n) => Ok(n),
                Err(e) => Err(e@),
            }, finished_at, stderr_log@),
    {
        self.stage = ControllerStage::Idle;
        match size {
            Err(e) => failed(CaptureError::OutputInspectionFailed(e)),
            Ok(bytes) => if bytes == 0 {
                let mut m = String::from_str("the ");
                match self.kind {
                    LinuxCaptureProcessKind::GstreamerX11 => push_str(&mut m, "X11"),
                    LinuxCaptureProcessKind::GstreamerWayland => push_str(&mut m, "Wayland"),
                }
                push_str(&mut m, " GStreamer pipeline exited without writing media data. ");
                let why = describe_process_failure(self.kind, stderr_log);
                push_str(&mut m, why.as_str());
                stop_error(m)
            } else {
                let duration_nanos: u128 = if finished_at >= self.started_at { finished_at - self.started_at } else { 0 };
                let artifact = RecordingArtifact {
                    output_path: self.output_path.clone(),
                    started_at: self.started_at,
                    finished_at,
                    duration_nanos,
                    bytes_written: bytes,
                };
                self.finished_artifact = Some(copy_artifact(&artifact));
                ControllerStep::Done(Ok(Some(artifact)))
            },
        }
    }
}

} // verus!
