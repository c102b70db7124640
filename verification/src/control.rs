//! The recorder's shared state and the HTTP control requests that act on it:
//! status, start, stop, pause, resume, exit, and the capture set-up.
use vstd::prelude::*;

verus! {

/// Whether a running recording is capturing or paused.
#[derive(Clone, Copy, Debug, PartialEq, Eq, Structural)]
pub enum RecStatus {
    Recording,
    Paused,
}

/// A command sent to the task that runs a recording.
#[derive(Clone, Copy, Debug, PartialEq, Eq, Structural)]
pub enum SessionCommand {
    Stop,
    Pause,
    Resume,
}

/// The answer to a control request.
#[derive(Clone, Copy, Debug, PartialEq, Eq, Structural)]
pub enum Reply {
    Started,
    AlreadyRecording,
    Stopped,
    Paused,
    Resumed,
    NotRecording,
    Exiting,
}

/// The HTTP status of an answer.
pub open spec fn reply_code(r: Reply) -> u16 {
    match r {
        Reply::AlreadyRecording | Reply::NotRecording => 400,
        _ => 200,
    }
}

/// The body text of an answer.
pub open spec fn reply_text(r: Reply) -> Seq<char> {
    match r {
        Reply::Started => "Started"@,
        Reply::AlreadyRecording => "Already recording"@,
        Reply::Stopped => "Stopped"@,
        Reply::Paused => "Paused"@,
        Reply::Resumed => "Resumed"@,
        Reply::NotRecording => "Not recording"@,
        Reply::Exiting => "Exiting"@,
    }
}

impl Reply {
    /// The HTTP status of this answer.
    pub fn status_code(&self) -> (code: u16)
        ensures
            code == reply_code(*self),
    {
        match self {
            Reply::AlreadyRecording | Reply::NotRecording => 400,
            _ => 200,
        }
    }

    /// The body text of this answer.
    pub fn text(&self) -> (t: &'static str)
        ensures
            t@ == reply_text(*self),
    {
        match self {
            Reply::Started => "Started",
            Reply::AlreadyRecording => "Already recording",
            Reply::Stopped => "Stopped",
            Reply::Paused => "Paused",
            Reply::Resumed => "Resumed",
            Reply::NotRecording => "Not recording",
            Reply::Exiting => "Exiting",
        }
    }
}

/// What a control request asks of the outside world: the answer, and the
/// command to hand to the recording task, if any.
#[derive(Clone, Copy, Debug, PartialEq, Eq, Structural)]
pub struct Outcome {
    pub reply: Reply,
    pub command: Option<SessionCommand>,
}

/// What a start request leads to.
#[derive(Clone, Copy, Debug, PartialEq, Eq, Structural)]
pub enum StartOutcome {
    /// A recording is running; nothing changes.
    AlreadyRecording,
    /// A recording was registered on the capture with this PipeWire node.
    Started { node_id: u32 },
}

/// The abstract state: the running recording and its status, if any; the
/// PipeWire node of the capture set up last, if any; and whether a preview
/// pipeline is running.
pub struct RecorderView {
    pub session: Option<RecStatus>,
    pub capture: Option<u32>,
    pub preview: bool,
}

/// The shared state of the recorder.
pub struct Recorder {
    session: Option<RecStatus>,
    capture: Option<u32>,
    preview: bool,
}

impl View for Recorder {
    type V = RecorderView;

    closed spec fn view(&self) -> RecorderView {
        RecorderView { session: self.session, capture: self.capture, preview: self.preview }
    }
}

/// The status text reported for a state.
pub open spec fn status_text_of(s: RecorderView) -> Seq<char> {
    match s.session {
        Some(RecStatus::Recording) => "recording"@,
        Some(RecStatus::Paused) => "paused"@,
        None => "idle"@,
    }
}

/// Whether a start request can be served: a recording runs (and the request
/// is refused), or a capture was set up. Otherwise the recorder cannot go on.
pub open spec fn start_allowed(s: RecorderView) -> bool {
    s.session is Some || s.capture is Some
}

/// The state and answer after a start request that can be served.
pub open spec fn start_step(s: RecorderView) -> (RecorderView, StartOutcome)
    recommends
        start_allowed(s),
{
    if s.session is Some {
        (s, StartOutcome::AlreadyRecording)
    } else {
        (
            RecorderView { session: Some(RecStatus::Recording), ..s },
            StartOutcome::Started { node_id: s.capture->0 },
        )
    }
}

/// The state and outcome after a stop request.
pub open spec fn stop_step(s: RecorderView) -> (RecorderView, Outcome) {
    if s.session is Some {
        (
            RecorderView { session: None, ..s },
            Outcome { reply: Reply::Stopped, command: Some(SessionCommand::Stop) },
        )
    } else {
        (s, Outcome { reply: Reply::NotRecording, command: None })
    }
}

/// The state and outcome after a pause request.
pub open spec fn pause_step(s: RecorderView) -> (RecorderView, Outcome) {
    if s.session is Some {
        (
            RecorderView { session: Some(RecStatus::Paused), ..s },
            Outcome { reply: Reply::Paused, command: Some(SessionCommand::Pause) },
        )
    } else {
        (s, Outcome { reply: Reply::NotRecording, command: None })
    }
}

/// The state and outcome after a resume request.
pub open spec fn resume_step(s: RecorderView) -> (RecorderView, Outcome) {
    if s.session is Some {
        (
            RecorderView { session: Some(RecStatus::Recording), ..s },
            Outcome { reply: Reply::Resumed, command: Some(SessionCommand::Resume) },
        )
    } else {
        (s, Outcome { reply: Reply::NotRecording, command: None })
    }
}

/// The state and outcome after an exit request: a running recording is told
/// to stop, and the answer is always that the recorder is exiting.
pub open spec fn exit_step(s: RecorderView) -> (RecorderView, Outcome) {
    (
        RecorderView { session: None, ..s },
        Outcome {
            reply: Reply::Exiting,
            command: if s.session is Some { Some(SessionCommand::Stop) } else { None },
        },
    )
}

impl Recorder {
    /// A recorder with no recording, no capture and no preview.
    pub fn new() -> (r: Recorder)
        ensures
            r@.session is None,
            r@.capture is None,
            !r@.preview,
    {
        Recorder { session: None, capture: None, preview: false }
    }

    /// The status of the recording, if one runs.
    pub fn session(&self) -> (s: Option<RecStatus>)
        ensures
            s == self@.session,
    {
        self.session
    }

    /// The PipeWire node of the capture set up last, if any.
    pub fn capture(&self) -> (c: Option<u32>)
        ensures
            c == self@.capture,
    {
        self.capture
    }

    /// Whether a preview pipeline runs.
    pub fn preview_running(&self) -> (p: bool)
        ensures
            p == self@.preview,
    {
        self.preview
    }

    /// The status text: "recording", "paused" or "idle".
    pub fn status_text(&self) -> (t: &'static str)
        ensures
            t@ == status_text_of(self@),
    {
        match self.session {
            Some(RecStatus::Recording) => "recording",
            Some(RecStatus::Paused) => "paused",
            None => "idle",
        }
    }

    /// Begins setting up a capture: the running preview, if any, is to be
    /// stopped; the result says whether there was one.
    pub fn begin_capture_setup(&mut self) -> (stop_preview: bool)
        ensures
            stop_preview == old(self)@.preview,
            final(self)@ == (RecorderView { preview: false, ..old(self)@ }),
    {
        let was = self.preview;
        self.preview = false;
        was
    }

    /// Records a capture set up on the given PipeWire node, whose preview now runs.
    pub fn finish_capture_setup(&mut self, node_id: u32)
        ensures
            final(self)@ == (RecorderView { capture: Some(node_id), preview: true, ..old(self)@ }),
    {
        self.capture = Some(node_id);
        self.preview = true;
    }

    /// Whether a start request can be served now; when it cannot, no
    /// capture was ever set up and the recorder cannot record.
    pub fn can_start(&self) -> (b: bool)
        ensures
            b == start_allowed(self@),
    {
        self.session.is_some() || self.capture.is_some()
    }

    /// Handles a start request.
    pub fn start(&mut self) -> (out: StartOutcome)
        requires
            start_allowed(old(self)@),
        ensures
            (final(self)@, out) == start_step(old(self)@),
    {
        if self.session.is_some() {
            StartOutcome::AlreadyRecording
        } else {
            let node = self.capture.unwrap();
            self.session = Some(RecStatus::Recording);
            StartOutcome::Started { node_id: node }
        }
    }

    /// Handles a stop request.
    pub fn stop(&mut self) -> (out: Outcome)
        ensures
            (final(self)@, out) == stop_step(old(self)@),
    {
        if self.session.is_some() {
            self.session = None;
            Outcome { reply: Reply::Stopped, command: Some(SessionCommand::Stop) }
        } else {
            Outcome { reply: Reply::NotRecording, command: None }
        }
    }

    /// Handles a pause request.
    pub fn pause(&mut self) -> (out: Outcome)
        ensures
            (final(self)@, out) == pause_step(old(self)@),
    {
        if self.session.is_some() {
            self.session = Some(RecStatus::Paused);
            Outcome { reply: Reply::Paused, command: Some(SessionCommand::Pause) }
        } else {
            Outcome { reply: Reply::NotRecording, command: None }
        }
    }

    /// Handles a resume request.
    pub fn resume(&mut self) -> (out: Outcome)
        ensures
            (final(self)@, out) == resume_step(old(self)@),
    {
        if self.session.is_some() {
            self.session = Some(RecStatus::Recording);
            Outcome { reply: Reply::Resumed, command: Some(SessionCommand::Resume) }
        } else {
            Outcome { reply: Reply::NotRecording, command: None }
        }
    }

    /// Handles an exit request.
    pub fn exit(&mut self) -> (out: Outcome)
        ensures
            (final(self)@, out) == exit_step(old(self)@),
    {
        let command = if self.session.is_some() { Some(SessionCommand::Stop) } else { None };
        self.session = None;
        Outcome { reply: Reply::Exiting, command }
    }

    /// Records that the recording task has finished.
    pub fn session_finished(&mut self)
        ensures
            final(self)@ == (RecorderView { session: None, ..old(self)@ }),
    {
        self.session = None;
    }
}

/// A stop, pause or resume request while nothing records is refused with
/// 400 "Not recording", sends no command and changes nothing.
pub proof fn law_refused_requests_change_nothing(s: RecorderView)
    requires
        s.session is None,
    ensures
        stop_step(s) == (s, Outcome { reply: Reply::NotRecording, command: None }),
        pause_step(s) == (s, Outcome { reply: Reply::NotRecording, command: None }),
        resume_step(s) == (s, Outcome { reply: Reply::NotRecording, command: None }),
        reply_code(Reply::NotRecording) == 400,
        reply_text(Reply::NotRecording) == "Not recording"@,
{
}

/// A start request while a recording runs is refused with 400 and changes nothing.
pub proof fn law_start_refused_while_recording(s: RecorderView)
    requires
        s.session is Some,
    ensures
        start_step(s) == (s, StartOutcome::AlreadyRecording),
        reply_code(Reply::AlreadyRecording) == 400,
{
}

impl StartOutcome {
    /// The answer to the start request.
    pub fn reply(&self) -> (r: Reply)
        ensures
            r == match *self {
                StartOutcome::AlreadyRecording => Reply::AlreadyRecording,
                StartOutcome::Started { .. } => Reply::Started,
            },
    {
        match self {
            StartOutcome::AlreadyRecording => Reply::AlreadyRecording,
            StartOutcome::Started { .. } => Reply::Started,
        }
    }
}

/// The answer to a request to pick the save folder: the folder picked, or
/// 400 with an empty body when the dialog was dismissed.
pub open spec fn folder_reply_of(picked: Option<Seq<char>>) -> (u16, Seq<char>) {
    match picked {
        Some(p) => (200, p),
        None => (400, Seq::empty()),
    }
}

/// Answers a request to pick the save folder.
pub fn folder_choice_reply(picked: Option<String>) -> (r: (u16, String))
    ensures
        (r.0, r.1@) == folder_reply_of(picked.deep_view()),
{
    match picked {
        Some(p) => (200, p),
        None => (400, String::new()),
    }
}

/// A start request on an idle recorder with a capture starts a recording on
/// that capture's node, and the status then reads "recording".
pub proof fn law_start_records(s: RecorderView, node: u32)
    requires
        s.session is None,
        s.capture == Some(node),
    ensures
        start_step(s).1 == (StartOutcome::Started { node_id: node }),
        status_text_of(start_step(s).0) == "recording"@,
        start_step(s).0.capture == s.capture,
{
}

/// Pausing then resuming a running recording leaves it recording, whatever
/// its status was before.
pub proof fn law_pause_then_resume(s: RecorderView)
    requires
        s.session is Some,
    ensures
        resume_step(pause_step(s).0).0 == (RecorderView { session: Some(RecStatus::Recording), ..s }),
        status_text_of(pause_step(s).0) == "paused"@,
        status_text_of(resume_step(pause_step(s).0).0) == "recording"@,
{
}

/// A second pause, or a second resume, leaves the state as the first left it.
pub proof fn law_pause_resume_idempotent(s: RecorderView)
    ensures
        pause_step(pause_step(s).0).0 == pause_step(s).0,
        resume_step(resume_step(s).0).0 == resume_step(s).0,
{
}

/// After a stop or an exit request no recording runs, and an exit request is
/// always answered with 200 "Exiting".
pub proof fn law_stop_and_exit_end_recording(s: RecorderView)
    ensures
        stop_step(s).0.session is None,
        exit_step(s).0.session is None,
        status_text_of(stop_step(s).0) == "idle"@,
        status_text_of(exit_step(s).0) == "idle"@,
        exit_step(s).1.reply == Reply::Exiting,
        reply_code(exit_step(s).1.reply) == 200,
{
}

/// A command reaches the recording task exactly when the request is answered
/// with 200, and only while a recording runs.
pub proof fn law_commands_only_when_accepted(s: RecorderView)
    ensures
        stop_step(s).1.command is Some <==> reply_code(stop_step(s).1.reply) == 200,
        pause_step(s).1.command is Some <==> reply_code(pause_step(s).1.reply) == 200,
        resume_step(s).1.command is Some <==> reply_code(resume_step(s).1.reply) == 200,
        stop_step(s).1.command is Some <==> s.session is Some,
        pause_step(s).1.command is Some <==> s.session is Some,
        resume_step(s).1.command is Some <==> s.session is Some,
        exit_step(s).1.command is Some <==> s.session is Some,
{
}

/// Control requests never touch the capture or the preview.
pub proof fn law_control_keeps_capture(s: RecorderView)
    ensures
        start_step(s).0.capture == s.capture && start_step(s).0.preview == s.preview,
        stop_step(s).0.capture == s.capture && stop_step(s).0.preview == s.preview,
        pause_step(s).0.capture == s.capture && pause_step(s).0.preview == s.preview,
        resume_step(s).0.capture == s.capture && resume_step(s).0.preview == s.preview,
        exit_step(s).0.capture == s.capture && exit_step(s).0.preview == s.preview,
{
}


/// Each accepted request hands the recording task the command it names: a
/// stop or an exit tells a running recording, paused or not, to stop; a
/// pause to pause; a resume to resume. The status then reads "idle",
/// "paused" and "recording" respectively.
pub proof fn law_commands_match_requests(s: RecorderView)
    requires
        s.session is Some,
    ensures
        stop_step(s).1 == (Outcome { reply: Reply::Stopped, command: Some(SessionCommand::Stop) }),
        exit_step(s).1 == (Outcome { reply: Reply::Exiting, command: Some(SessionCommand::Stop) }),
        pause_step(s).1 == (Outcome { reply: Reply::Paused, command: Some(SessionCommand::Pause) }),
        resume_step(s).1 == (Outcome { reply: Reply::Resumed, command: Some(SessionCommand::Resume) }),
        stop_step(s).0 == (RecorderView { session: None, ..s }),
        exit_step(s).0 == (RecorderView { session: None, ..s }),
        pause_step(s).0 == (RecorderView { session: Some(RecStatus::Paused), ..s }),
        resume_step(s).0 == (RecorderView { session: Some(RecStatus::Recording), ..s }),
        status_text_of(stop_step(s).0) == "idle"@,
        status_text_of(pause_step(s).0) == "paused"@,
        status_text_of(resume_step(s).0) == "recording"@,
        reply_code(Reply::Stopped) == 200 && reply_text(Reply::Stopped) == "Stopped"@,
        reply_code(Reply::Paused) == 200 && reply_text(Reply::Paused) == "Paused"@,
        reply_code(Reply::Resumed) == 200 && reply_text(Reply::Resumed) == "Resumed"@,
{
}

} // verus!
