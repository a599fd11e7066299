//! The ScreenCast portal negotiation as a state machine: the session
//! bus calls are made by the caller, which hands each outcome back and
//! is told what to call next.
use vstd::prelude::*;
use vstd::string::*;
use crate::capture::CaptureError;
use crate::linux::portal::{ensure_portal_success, portal_response_explanation, request_handle_path,
    request_path_spec, create_session_handle_path, session_path_spec};
use crate::text::{chars_of, dec, join, push_dec, push_str, string_of, string_views};

verus! {

/// Where a negotiation stands: waiting on `CreateSession`,
/// `SelectSources`, `Start` or `OpenPipeWireRemote`, or ended.
#[derive(Debug, Clone, Copy, PartialEq, Eq, Structural)]
pub enum NegotiationStage {
    Creating,
    Selecting,
    Starting,
    OpeningRemote,
    Finished,
    Failed,
}

/// A negotiation in progress, with what the portal has returned so far.
#[derive(Debug)]
pub struct PortalNegotiation {
    pub stage: NegotiationStage,
    pub sender: String,
    pub session_token: String,
    pub session_handle: String,
    pub restore_token: Option<String>,
    pub stream_node_ids: Vec<u32>,
}

pub struct NegotiationView {
    pub stage: NegotiationStage,
    pub sender: Seq<char>,
    pub session_token: Seq<char>,
    pub session_handle: Seq<char>,
    pub restore_token: Option<Seq<char>>,
    pub stream_node_ids: Seq<u32>,
}

pub open spec fn opt_text(o: Option<String>) -> Option<Seq<char>> {
    match o {
        Some(s) => Some(s@),
        None => None,
    }
}

impl View for PortalNegotiation {
    type V = NegotiationView;

    open spec fn view(&self) -> NegotiationView {
        NegotiationView {
            stage: self.stage,
            sender: self.sender@,
            session_token: self.session_token@,
            session_handle: self.session_handle@,
            restore_token: opt_text(self.restore_token),
            stream_node_ids: self.stream_node_ids@,
        }
    }
}

/// What the caller saw of the last call: the call failed, its response
/// could not be received, the portal responded, or the PipeWire remote
/// was opened.
#[derive(Debug)]
pub enum PortalEvent {
    CallFailed(String),
    ResponseFailed(String),
    Responded { code: u32, session_handle: Option<String>, restore_token: Option<String>, stream_node_ids: Vec<u32> },
    RemoteOpened,
}

pub enum EventView {
    CallFailed(Seq<char>),
    ResponseFailed(Seq<char>),
    Responded { code: u32, session_handle: Option<Seq<char>>, restore_token: Option<Seq<char>>, stream_node_ids: Seq<u32> },
    RemoteOpened,
}

impl View for PortalEvent {
    type V = EventView;

    open spec fn view(&self) -> EventView {
        match self {
            PortalEvent::CallFailed(e) => EventView::CallFailed(e@),
            PortalEvent::ResponseFailed(e) => EventView::ResponseFailed(e@),
            PortalEvent::Responded { code, session_handle, restore_token, stream_node_ids } => EventView::Responded {
                code: *code,
                session_handle: opt_text(*session_handle),
                restore_token: opt_text(*restore_token),
                stream_node_ids: stream_node_ids@,
            },
            PortalEvent::RemoteOpened => EventView::RemoteOpened,
        }
    }
}

/// What the caller does next.
#[derive(Debug)]
pub enum PortalAction {
    SelectSources { session_handle: String, request_token: String, request_path: String },
    Start { session_handle: String, request_token: String, request_path: String },
    OpenPipeWireRemote { session_handle: String },
    Finish,
    Fail(CaptureError),
}

pub enum ActionView {
    SelectSources { session_handle: Seq<char>, request_token: Seq<char>, request_path: Seq<char> },
    Start { session_handle: Seq<char>, request_token: Seq<char>, request_path: Seq<char> },
    OpenPipeWireRemote { session_handle: Seq<char> },
    Finish,
    Fail(Seq<char>),
    Other,
}

impl View for PortalAction {
    type V = ActionView;

    open spec fn view(&self) -> ActionView {
        match self {
            PortalAction::SelectSources { session_handle, request_token, request_path } => ActionView::SelectSources {
                session_handle: session_handle@, request_token: request_token@, request_path: request_path@,
            },
            PortalAction::Start { session_handle, request_token, request_path } => ActionView::Start {
                session_handle: session_handle@, request_token: request_token@, request_path: request_path@,
            },
            PortalAction::OpenPipeWireRemote { session_handle } => ActionView::OpenPipeWireRemote { session_handle: session_handle@ },
            PortalAction::Finish => ActionView::Finish,
            PortalAction::Fail(CaptureError::BackendUnavailable(m)) => ActionView::Fail(m@),
            PortalAction::Fail(_) => ActionView::Other,
        }
    }
}

/// The portal method a stage waits on.
pub open spec fn stage_method(s: NegotiationStage) -> Seq<char> {
    match s {
        NegotiationStage::Creating => "CreateSession"@,
        NegotiationStage::Selecting => "SelectSources"@,
        NegotiationStage::Starting => "Start"@,
        _ => "OpenPipeWireRemote"@,
    }
}

fn stage_method_name(s: NegotiationStage) -> (r: &'static str)
    ensures
        r@ == stage_method(s),
{
    match s {
        NegotiationStage::Creating => "CreateSession",
        NegotiationStage::Selecting => "SelectSources",
        NegotiationStage::Starting => "Start",
        _ => "OpenPipeWireRemote",
    }
}

/// Whether an event can follow the call a stage made: a request answers
/// with a response, the remote is just opened.
pub open spec fn event_fits(s: NegotiationStage, e: EventView) -> bool {
    match s {
        NegotiationStage::Creating | NegotiationStage::Selecting | NegotiationStage::Starting => !(e is RemoteOpened),
        NegotiationStage::OpeningRemote => e is CallFailed || e is RemoteOpened,
        _ => false,
    }
}

pub open spec fn with_stage(v: NegotiationView, s: NegotiationStage) -> NegotiationView {
    NegotiationView { stage: s, ..v }
}

/// One step of the negotiation: a failed call or response, or a non-zero
/// response code, ends it with an error; `CreateSession` yields the
/// session handle (the portal's, else the one derived from the token)
/// and the restore token; `Start` yields the final handle and the stream
/// nodes, at least one of which is needed; opening the remote finishes it.
pub open spec fn step_spec(v: NegotiationView, e: EventView, next_token: Seq<char>) -> (NegotiationView, ActionView) {
    let method = stage_method(v.stage);
    match e {
        EventView::CallFailed(err) => (with_stage(v, NegotiationStage::Failed),
            ActionView::Fail("ScreenCast portal "@ + method + " call failed: "@ + err)),
        EventView::ResponseFailed(err) => (with_stage(v, NegotiationStage::Failed),
            ActionView::Fail("ScreenCast portal "@ + method + " response failed: "@ + err)),
        EventView::RemoteOpened => (with_stage(v, NegotiationStage::Finished), ActionView::Finish),
        EventView::Responded { code, session_handle, restore_token, stream_node_ids } => if code != 0 {
            (with_stage(v, NegotiationStage::Failed), ActionView::Fail("ScreenCast portal "@ + method
                + " failed with response code "@ + dec(code as nat) + ": "@ + portal_response_explanation(code)))
        } else {
            match v.stage {
                NegotiationStage::Creating => {
                    let handle = match session_handle {
                        Some(h) => h,
                        None => session_path_spec(v.sender, v.session_token),
                    };
                    (NegotiationView { stage: NegotiationStage::Selecting, session_handle: handle, restore_token, ..v },
                        ActionView::SelectSources { session_handle: handle, request_token: next_token,
                            request_path: request_path_spec(v.sender, next_token) })
                },
                NegotiationStage::Selecting => (with_stage(v, NegotiationStage::Starting),
                    ActionView::Start { session_handle: v.session_handle, request_token: next_token,
                        request_path: request_path_spec(v.sender, next_token) }),
                _ => {
                    let handle = match session_handle {
                        Some(h) => h,
                        None => v.session_handle,
                    };
                    if stream_node_ids.len() == 0 {
                        (with_stage(v, NegotiationStage::Failed), ActionView::Fail(
                            "ScreenCast portal Start succeeded but did not return any PipeWire stream nodes."@))
                    } else {
                        (NegotiationView { stage: NegotiationStage::OpeningRemote, session_handle: handle, stream_node_ids, ..v },
                            ActionView::OpenPipeWireRemote { session_handle: handle })
                    }
                },
            }
        },
    }
}

impl PortalNegotiation {
    /// A negotiation about to call `CreateSession` with the given tokens,
    /// and the path of that call's request.
    pub fn begin(sender: &str, session_token: &str, request_token: &str) -> (r: (PortalNegotiation, String))
        ensures
            r.0@ == (NegotiationView {
                stage: NegotiationStage::Creating,
                sender: sender@,
                session_token: session_token@,
                session_handle: session_path_spec(sender@, session_token@),
                restore_token: None,
                stream_node_ids: seq![],
            }),
            r.1@ == request_path_spec(sender@, request_token@),
    {
        let n = PortalNegotiation {
            stage: NegotiationStage::Creating,
            sender: String::from_str(sender),
            session_token: String::from_str(session_token),
            session_handle: create_session_handle_path(sender, session_token),
            restore_token: None,
            stream_node_ids: Vec::new(),
        };
        (n, request_handle_path(sender, request_token))
    }

    /// Takes the outcome of the last call; `next_request_token` is the
    /// token of the request that the returned action makes, if any.
    pub fn step(&mut self, event: PortalEvent, next_request_token: &str) -> (a: PortalAction)
        requires
            event_fits(old(self).stage, event@),
        ensures
            (final(self)@, a@) == step_spec(old(self)@, event@, next_request_token@),
    {
        let method = stage_method_name(self.stage);
        match event {
            PortalEvent::CallFailed(err) => {
                self.stage = NegotiationStage::Failed;
                let mut m = String::from_str("ScreenCast portal ");
                push_str(&mut m, method);
                push_str(&mut m, " call failed: ");
                push_str(&mut m, err.as_str());
                PortalAction::Fail(CaptureError::BackendUnavailable(m))
            },
            PortalEvent::ResponseFailed(err) => {
                self.stage = NegotiationStage::Failed;
                let mut m = String::from_str("ScreenCast portal ");
                push_str(&mut m, method);
                push_str(&mut m, " response failed: ");
                push_str(&mut m, err.as_str());
                PortalAction::Fail(CaptureError::BackendUnavailable(m))
            },
            PortalEvent::RemoteOpened => {
                self.stage = NegotiationStage::Finished;
                PortalAction::Finish
            },
            PortalEvent::Responded { code, session_handle, restore_token, stream_node_ids } => {
                if code != 0 {
                    self.stage = NegotiationStage::Failed;
                    return match ensure_portal_success(method, code) {
                        Err(e) => PortalAction::Fail(e),
                        Ok(()) => PortalAction::Finish,
                    };
                }
                match self.stage {
                    NegotiationStage::Creating => {
                        self.session_handle = match session_handle {
                            Some(h) => h,
                            None => create_session_handle_path(self.sender.as_str(), self.session_token.as_str()),
                        };
                        self.restore_token = restore_token;
                        self.stage = NegotiationStage::Selecting;
                        PortalAction::SelectSources {
                            session_handle: self.session_handle.clone(),
                            request_token: String::from_str(next_request_token),
                            request_path: request_handle_path(self.sender.as_str(), next_request_token),
                        }
                    },
                    NegotiationStage::Selecting => {
                        self.stage = NegotiationStage::Starting;
                        PortalAction::Start {
                            session_handle: self.session_handle.clone(),
                            request_token: String::from_str(next_request_token),
                            request_path: request_handle_path(self.sender.as_str(), next_request_token),
                        }
                    },
                    _ => {
                        if stream_node_ids.len() == 0 {
                            self.stage = NegotiationStage::Failed;
                            return PortalAction::Fail(CaptureError::BackendUnavailable(String::from_str(
                                "ScreenCast portal Start succeeded but did not return any PipeWire stream nodes.")));
                        }
                        match session_handle {
                            Some(h) => {
                                self.session_handle = h;
                            },
                            None => {},
                        }
                        self.stream_node_ids = stream_node_ids;
                        self.stage = NegotiationStage::OpeningRemote;
                        PortalAction::OpenPipeWireRemote { session_handle: self.session_handle.clone() }
                    },
                }
            },
        }
    }
}

/// The session bus's unique name as the portal writes it in object
/// paths: leading colons dropped, dots made underscores.
pub open spec fn strip_colons(s: Seq<char>) -> Seq<char>
    decreases s.len(),
{
    if s.len() > 0 && s[0] == ':' { strip_colons(s.drop_first()) } else { s }
}

pub open spec fn portal_sender_spec(name: Seq<char>) -> Seq<char> {
    strip_colons(name).map_values(|c: char| if c == '.' { '_' } else { c })
}

pub fn normalized_unique_name(name: &str) -> (r: String)
    ensures
        r@ == portal_sender_spec(name@),
{
    let c = chars_of(name);
    let n = c.len();
    let mut k: usize = 0;
    assert(c@.subrange(0, n as int) == c@);
    while k < n && c[k] == ':'
        invariant
            k <= n == c@.len(),
            strip_colons(c@) == strip_colons(c@.subrange(k as int, n as int)),
        decreases n - k,
    {
        assert(c@.subrange(k as int, n as int).drop_first() == c@.subrange(k + 1, n as int));
        k += 1;
    }
    assert(strip_colons(c@.subrange(k as int, n as int)) == c@.subrange(k as int, n as int));
    let mut out: Vec<char> = Vec::new();
    let mut i: usize = k;
    while i < n
        invariant
            k <= i <= n == c@.len(),
            out@ == c@.subrange(k as int, i as int).map_values(|x: char| if x == '.' { '_' } else { x }),
        decreases n - i,
    {
        let ch = c[i];
        out.push(if ch == '.' { '_' } else { ch });
        assert(c@.subrange(k as int, i + 1) == c@.subrange(k as int, i as int).push(ch));
        assert(out@ =~= c@.subrange(k as int, i + 1).map_values(|x: char| if x == '.' { '_' } else { x }));
        i += 1;
    }
    string_of(&out)
}

/// What a failed object-path conversion reports.
pub fn invalid_object_path_error(path: &str, error: &str) -> (e: CaptureError)
    ensures
        e matches CaptureError::BackendUnavailable(m)
            && m@ == "ScreenCast portal returned an invalid object path `"@ + path@ + "`: "@ + error@,
{
    let mut m = String::from_str("ScreenCast portal returned an invalid object path `");
    push_str(&mut m, path);
    push_str(&mut m, "`: ");
    push_str(&mut m, error);
    CaptureError::BackendUnavailable(m)
}

pub open spec fn node_ids_text(ids: Seq<u32>) -> Seq<char> {
    "["@ + join(ids.map_values(|n: u32| dec(n as nat)), ", "@) + "]"@
}

/// What the launcher is told once a session is negotiated but not yet
/// recorded from: the stream nodes (as a list) and the restore token.
pub fn runtime_pending_copy(stream_node_ids: &Vec<u32>, restore_token: Option<&str>) -> (r: String)
    ensures
        r@ == "The ScreenCast portal session was negotiated successfully and returned PipeWire stream node IDs "@
            + node_ids_text(stream_node_ids@)
            + ". The portal also opened a PipeWire remote file descriptor, but the recorder does not ingest that fd into a live Wayland capture pipeline yet."@
            + match restore_token {
                Some(t) => " Restore token `"@ + t@ + "` was issued by the portal."@,
                None => seq![],
            },
{
    let mut parts: Vec<String> = Vec::new();
    let mut i: usize = 0;
    while i < stream_node_ids.len()
        invariant
            i <= stream_node_ids@.len(),
            string_views(parts@) == stream_node_ids@.subrange(0, i as int).map_values(|n: u32| dec(n as nat)),
        decreases stream_node_ids@.len() - i,
    {
        let mut s = String::new();
        push_dec(&mut s, stream_node_ids[i] as u64);
        proof { assert(s@ =~= dec(stream_node_ids@[i as int] as nat)); }
        let ghost before = string_views(parts@);
        parts.push(s);
        assert(string_views(parts@) == before.push(s@));
        assert(stream_node_ids@.subrange(0, i + 1) == stream_node_ids@.subrange(0, i as int).push(stream_node_ids@[i as int]));
        assert(string_views(parts@) =~= stream_node_ids@.subrange(0, i + 1).map_values(|n: u32| dec(n as nat)));
        i += 1;
    }
    assert(stream_node_ids@.subrange(0, stream_node_ids@.len() as int) == stream_node_ids@);
    let mut r = String::from_str("The ScreenCast portal session was negotiated successfully and returned PipeWire stream node IDs ");
    push_str(&mut r, "[");
    let j = crate::text::join_strings(&parts, ", ");
    push_str(&mut r, j.as_str());
    push_str(&mut r, "]");
    push_str(&mut r, ". The portal also opened a PipeWire remote file descriptor, but the recorder does not ingest that fd into a live Wayland capture pipeline yet.");
    match restore_token {
        Some(t) => {
            push_str(&mut r, " Restore token `");
            push_str(&mut r, t);
            push_str(&mut r, "` was issued by the portal.");
        },
        None => {
            proof { reveal_strlit(""); }
        },
    }
    r
}

pub open spec fn begin_view(sender: Seq<char>, session_token: Seq<char>) -> NegotiationView {
    NegotiationView {
        stage: NegotiationStage::Creating,
        sender,
        session_token,
        session_handle: session_path_spec(sender, session_token),
        restore_token: None,
        stream_node_ids: seq![],
    }
}

/// A negotiation whose three requests succeed, with stream nodes from
/// `Start`, and whose remote opens, ends finished with the handle `Start`
/// named (else the one `CreateSession` named, else the derived one), the
/// restore token of `CreateSession` and the stream nodes of `Start`.
pub proof fn law_successful_negotiation(
    sender: Seq<char>,
    session_token: Seq<char>,
    create_handle: Option<Seq<char>>,
    restore_token: Option<Seq<char>>,
    start_handle: Option<Seq<char>>,
    nodes: Seq<u32>,
    t1: Seq<char>,
    t2: Seq<char>,
    t3: Seq<char>,
    t4: Seq<char>,
)
    requires
        nodes.len() > 0,
    ensures
        ({
            let s1 = step_spec(begin_view(sender, session_token), EventView::Responded { code: 0, session_handle: create_handle,
                restore_token, stream_node_ids: seq![] }, t1).0;
            let s2 = step_spec(s1, EventView::Responded { code: 0, session_handle: None, restore_token: None,
                stream_node_ids: seq![] }, t2).0;
            let s3 = step_spec(s2, EventView::Responded { code: 0, session_handle: start_handle, restore_token: None,
                stream_node_ids: nodes }, t3).0;
            let (s4, a4) = step_spec(s3, EventView::RemoteOpened, t4);
            &&& s1.stage == NegotiationStage::Selecting
            &&& s2.stage == NegotiationStage::Starting
            &&& s3.stage == NegotiationStage::OpeningRemote
            &&& s4.stage == NegotiationStage::Finished
            &&& a4 is Finish
            &&& s4.session_handle == match start_handle {
                Some(h) => h,
                None => match create_handle {
                    Some(h) => h,
                    None => session_path_spec(sender, session_token),
                },
            }
            &&& s4.restore_token == restore_token
            &&& s4.stream_node_ids == nodes
        }),
{
}

/// A non-zero response code ends the negotiation at whatever request it
/// answers, with an error that names that request.
pub proof fn law_refused_request_fails(v: NegotiationView, code: u32, handle: Option<Seq<char>>, restore: Option<Seq<char>>,
    nodes: Seq<u32>, token: Seq<char>)
    requires
        code != 0,
    ensures
        ({
            let (s, a) = step_spec(v, EventView::Responded { code, session_handle: handle, restore_token: restore,
                stream_node_ids: nodes }, token);
            &&& s.stage == NegotiationStage::Failed
            &&& a == ActionView::Fail("ScreenCast portal "@ + stage_method(v.stage) + " failed with response code "@
                + dec(code as nat) + ": "@ + portal_response_explanation(code))
        }),
{
}

} // verus!
