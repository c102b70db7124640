//! The task that runs one recording: it records into numbered segment files,
//! closes the current segment on pause, opens the next one on resume, and at
//! the end hands the segments over to be joined.
use vstd::prelude::*;
use crate::control::SessionCommand;
use crate::decimal::lemma_signed_decimal_injective;
use crate::pipeline::{
    audio_branch, audio_branch_text, audio_sources, audio_sources_of, encoder_from_name,
    encoder_named, recording_pipeline, recording_pipeline_text, scale_caps, scale_caps_text,
    segment_path, segment_path_text, law_recording_pipeline_parts, rate_queue_text, Encoder,
    law_audio_branch, law_audio_sources, law_encoder_named,
};
use crate::decimal::{decimal, signed_decimal};
use crate::text::contains_text;

verus! {

/// What a recording is asked to capture, as the start request gives it.
pub struct RecordConfig {
    pub fps: u32,
    pub quality_bitrate: u32,
    pub resolution: String,
    pub encoder: String,
    pub record_mic: bool,
    pub record_system_audio: bool,
    pub mic_source: String,
    pub output_folder: String,
    pub show_cursor: bool,
}

/// The parts of a segment pipeline that stay the same for a whole recording.
pub struct RecordingPlan {
    pub encoder: Encoder,
    pub scale_caps: String,
    pub fps: u32,
    pub bitrate: u32,
    pub audio: String,
}

/// A recording plan as plain values.
pub struct PlanView {
    pub encoder: Encoder,
    pub scale_caps: Seq<char>,
    pub fps: u32,
    pub bitrate: u32,
    pub audio: Seq<char>,
}

impl View for RecordingPlan {
    type V = PlanView;

    open spec fn view(&self) -> PlanView {
        PlanView {
            encoder: self.encoder,
            scale_caps: self.scale_caps@,
            fps: self.fps,
            bitrate: self.bitrate,
            audio: self.audio@,
        }
    }
}

/// The plan that a configuration gives, with the monitor of the default sink
/// when one is known.
pub open spec fn plan_of(
    encoder: Seq<char>,
    resolution: Seq<char>,
    fps: u32,
    bitrate: u32,
    record_mic: bool,
    mic: Seq<char>,
    record_system: bool,
    monitor: Option<Seq<char>>,
) -> PlanView {
    PlanView {
        encoder: encoder_named(encoder),
        scale_caps: scale_caps_text(resolution),
        fps,
        bitrate,
        audio: audio_branch_text(audio_sources_of(record_mic, mic, record_system, monitor)),
    }
}

impl RecordingPlan {
    /// Derives the plan of a recording from its configuration.
    pub fn from_config(config: &RecordConfig, monitor: &Option<String>) -> (p: RecordingPlan)
        ensures
            p@ == plan_of(
                config.encoder@,
                config.resolution@,
                config.fps,
                config.quality_bitrate,
                config.record_mic,
                config.mic_source@,
                config.record_system_audio,
                monitor.deep_view(),
            ),
    {
        let sources = audio_sources(
            config.record_mic,
            config.mic_source.as_str(),
            config.record_system_audio,
            monitor,
        );
        RecordingPlan {
            encoder: encoder_from_name(config.encoder.as_str()),
            scale_caps: scale_caps(config.resolution.as_str()),
            fps: config.fps,
            bitrate: config.quality_bitrate,
            audio: audio_branch(&sources),
        }
    }
}

/// Where a recording task stands.
#[derive(Clone, Copy, Debug, PartialEq, Eq, Structural)]
pub enum Phase {
    /// Waiting for a PipeWire file descriptor to open the next segment.
    AwaitingFd,
    /// Waiting for the next command.
    Capturing,
    /// Done with commands; the segments are to be closed and joined.
    Ended,
}

/// What the task that runs the recording is to do next.
pub enum SessionAction {
    /// Ask the screen cast portal for a PipeWire file descriptor.
    RequestFd,
    /// Launch this pipeline and set it playing; it records the newest segment.
    Launch { pipeline: String },
    /// End the stream of the current pipeline, wait for it, and stop it.
    FinalizeSegment,
    /// Nothing to do; wait for the next command.
    Wait,
    /// Leave the command loop, then close and join the segments.
    Finish,
    /// End the task at once, with no segment to join.
    Abandon,
}

/// A next step as plain values.
pub enum ActionView {
    RequestFd,
    Launch(Seq<char>),
    FinalizeSegment,
    Wait,
    Finish,
    Abandon,
}

impl View for SessionAction {
    type V = ActionView;

    open spec fn view(&self) -> ActionView {
        match self {
            SessionAction::RequestFd => ActionView::RequestFd,
            SessionAction::Launch { pipeline } => ActionView::Launch(pipeline@),
            SessionAction::FinalizeSegment => ActionView::FinalizeSegment,
            SessionAction::Wait => ActionView::Wait,
            SessionAction::Finish => ActionView::Finish,
            SessionAction::Abandon => ActionView::Abandon,
        }
    }
}

/// A recording task as plain values: the process id and node it records,
/// its plan, the index of the newest segment, the segment files opened so
/// far, whether a pipeline is live, and the phase.
pub struct SessionView {
    pub pid: u32,
    pub node_id: u32,
    pub plan: PlanView,
    pub index: int,
    pub segments: Seq<Seq<char>>,
    pub live: bool,
    pub phase: Phase,
}

/// What holds of every recording task: segment `k` is the `k`-th segment
/// file of the process, and they were opened in order; while waiting for a
/// file descriptor the newest index is not opened yet, while capturing it is.
pub open spec fn session_wf(s: SessionView) -> bool {
    &&& 0 <= s.index <= i32::MAX
    &&& forall|k: int| 0 <= k < s.segments.len() ==> #[trigger] s.segments[k] == segment_path_text(s.pid as nat, k)
    &&& s.live ==> s.segments.len() >= 1
    &&& s.index <= s.segments.len() <= s.index + 1
    &&& s.phase == Phase::AwaitingFd ==> s.segments.len() == s.index
    &&& s.phase == Phase::Capturing ==> s.segments.len() == s.index + 1
}

/// The task at its start: nothing opened, a file descriptor to be asked for.
pub open spec fn initial_session(pid: u32, node_id: u32, plan: PlanView) -> SessionView {
    SessionView {
        pid,
        node_id,
        plan,
        index: 0,
        segments: Seq::empty(),
        live: false,
        phase: Phase::AwaitingFd,
    }
}

/// The pipeline that records segment `index` of a task, on descriptor `fd`.
pub open spec fn pipeline_for(s: SessionView, index: int, fd: int) -> Seq<char> {
    recording_pipeline_text(
        s.plan.encoder,
        segment_path_text(s.pid as nat, index),
        fd,
        s.node_id as nat,
        s.plan.scale_caps,
        s.plan.fps as nat,
        s.plan.bitrate as nat,
        s.plan.audio,
    )
}

/// The pipeline that records the newest segment of a task, on descriptor `fd`.
pub open spec fn segment_pipeline_text(s: SessionView, fd: int) -> Seq<char> {
    pipeline_for(s, s.index, fd)
}

/// The next state and step after the answer to a file descriptor request:
/// without one the task ends, at once when nothing was opened yet, else
/// through the join; with one the next segment is opened and launched.
pub open spec fn fd_step(s: SessionView, fd: Option<i32>) -> (SessionView, ActionView) {
    match fd {
        None => (
            SessionView { phase: Phase::Ended, ..s },
            if s.segments.len() == 0 { ActionView::Abandon } else { ActionView::Finish },
        ),
        Some(f) => (
            SessionView {
                segments: s.segments.push(segment_path_text(s.pid as nat, s.index)),
                live: true,
                phase: Phase::Capturing,
                ..s
            },
            ActionView::Launch(segment_pipeline_text(s, f as int)),
        ),
    }
}

/// The next state and step after a command, or after the command channel
/// closed (`None`): stop and a closed channel leave the loop; pause closes the
/// live segment, if any; resume moves to the next index and asks for a file
/// descriptor, whether or not a pipeline is live.
pub open spec fn command_step(s: SessionView, cmd: Option<SessionCommand>) -> (SessionView, ActionView) {
    match cmd {
        None | Some(SessionCommand::Stop) => (SessionView { phase: Phase::Ended, ..s }, ActionView::Finish),
        Some(SessionCommand::Pause) => (
            SessionView { live: false, ..s },
            if s.live { ActionView::FinalizeSegment } else { ActionView::Wait },
        ),
        Some(SessionCommand::Resume) => (
            SessionView { index: s.index + 1, phase: Phase::AwaitingFd, ..s },
            ActionView::RequestFd,
        ),
    }
}

/// The task that runs one recording.
pub struct RecordingSession {
    pid: u32,
    node_id: u32,
    plan: RecordingPlan,
    index: i32,
    segments: Vec<String>,
    live: bool,
    phase: Phase,
}

impl View for RecordingSession {
    type V = SessionView;

    closed spec fn view(&self) -> SessionView {
        SessionView {
            pid: self.pid,
            node_id: self.node_id,
            plan: self.plan@,
            index: self.index as int,
            segments: self.segments.deep_view(),
            live: self.live,
            phase: self.phase,
        }
    }
}

impl RecordingSession {
    /// Every task keeps `session_wf`.
    #[verifier::type_invariant]
    spec fn well_formed(&self) -> bool {
        session_wf(self@)
    }

    /// A recording task of process `pid` on PipeWire node `node_id`. Its first
    /// step is to ask for a file descriptor.
    pub fn new(pid: u32, node_id: u32, plan: RecordingPlan) -> (s: RecordingSession)
        ensures
            s@ == initial_session(pid, node_id, plan@),
            session_wf(s@),
    {
        let segments: Vec<String> = Vec::new();
        proof { assert(segments.deep_view() =~= Seq::<Seq<char>>::empty()); }
        RecordingSession { pid, node_id, plan, index: 0, segments, live: false, phase: Phase::AwaitingFd }
    }

    /// The index of the newest segment.
    pub fn segment_index(&self) -> (i: i32)
        ensures
            i as int == self@.index,
            session_wf(self@),
    {
        proof { use_type_invariant(self); }
        self.index
    }

    /// The segment files opened so far, oldest first.
    pub fn segments(&self) -> (v: &Vec<String>)
        ensures
            v.deep_view() == self@.segments,
            session_wf(self@),
    {
        proof { use_type_invariant(self); }
        &self.segments
    }

    /// The phase of the task.
    pub fn phase(&self) -> (p: Phase)
        ensures
            p == self@.phase,
            session_wf(self@),
    {
        proof { use_type_invariant(self); }
        self.phase
    }

    /// Whether a pipeline is live.
    pub fn is_live(&self) -> (b: bool)
        ensures
            b == self@.live,
            session_wf(self@),
    {
        proof { use_type_invariant(self); }
        self.live
    }

    /// Handles the answer to a file descriptor request.
    pub fn on_fd(&mut self, fd: Option<i32>) -> (action: SessionAction)
        requires
            old(self)@.phase == Phase::AwaitingFd,
        ensures
            (final(self)@, action@) == fd_step(old(self)@, fd),
            session_wf(final(self)@),
    {
        proof { use_type_invariant(&*self); }
        match fd {
            None => {
                self.phase = Phase::Ended;
                if self.segments.len() == 0 {
                    SessionAction::Abandon
                } else {
                    SessionAction::Finish
                }
            },
            Some(f) => {
                let path = segment_path(self.pid, self.index);
                let pipeline = recording_pipeline(
                    self.plan.encoder,
                    path.as_str(),
                    f,
                    self.node_id,
                    self.plan.scale_caps.as_str(),
                    self.plan.fps,
                    self.plan.bitrate,
                    self.plan.audio.as_str(),
                );
                let mut segments = self.segments.clone();
                let ghost before = segments@;
                segments.push(path);
                proof {
                    assert(segments@ == before.push(path));
                    assert forall|k: int| 0 <= k < before.len() implies before[k]@ == self.segments@[k]@ by {
                        assert(cloned::<String>(self.segments@[k], before[k]));
                    }
                    assert(segments.deep_view() =~= old(self)@.segments.push(path@));
                }
                // Between the two steps of opening a segment the task counts
                // as ended, the one phase that admits either segment count.
                self.phase = Phase::Ended;
                self.segments = segments;
                self.live = true;
                self.phase = Phase::Capturing;
                SessionAction::Launch { pipeline }
            },
        }
    }

    /// Handles the next command, or the end of the command channel (`None`).
    pub fn on_command(&mut self, cmd: Option<SessionCommand>) -> (action: SessionAction)
        requires
            old(self)@.phase == Phase::Capturing,
            cmd == Some(SessionCommand::Resume) ==> old(self)@.index < i32::MAX,
        ensures
            (final(self)@, action@) == command_step(old(self)@, cmd),
            session_wf(final(self)@),
    {
        proof { use_type_invariant(&*self); }
        match cmd {
            None | Some(SessionCommand::Stop) => {
                self.phase = Phase::Ended;
                SessionAction::Finish
            },
            Some(SessionCommand::Pause) => {
                if self.live {
                    self.live = false;
                    SessionAction::FinalizeSegment
                } else {
                    SessionAction::Wait
                }
            },
            Some(SessionCommand::Resume) => {
                // As in `on_fd`, the move to the next index passes through
                // the ended phase.
                self.phase = Phase::Ended;
                self.index = self.index + 1;
                self.phase = Phase::AwaitingFd;
                SessionAction::RequestFd
            },
        }
    }

    /// Closes the task after the command loop: the result says whether the
    /// live pipeline, if any, is to be finalized before the join.
    pub fn finish(&mut self) -> (finalize: bool)
        requires
            old(self)@.phase == Phase::Ended,
        ensures
            finalize == old(self)@.live,
            final(self)@ == (SessionView { live: false, ..old(self)@ }),
            session_wf(final(self)@),
    {
        proof { use_type_invariant(&*self); }
        let was = self.live;
        self.live = false;
        was
    }
}

/// Segment files of one process with different indices have different names.
pub proof fn law_segment_paths_distinct(pid: nat, a: int, b: int)
    ensures
        segment_path_text(pid, a) == segment_path_text(pid, b) ==> a == b,
{
    let pa = segment_path_text(pid, a);
    let pb = segment_path_text(pid, b);
    if pa == pb {
        let head = "/tmp/seg_"@ + crate::decimal::decimal(pid) + "_"@;
        let tail = ".mkv"@;
        let da = crate::decimal::signed_decimal(a);
        let db = crate::decimal::signed_decimal(b);
        assert(pa == head + da + tail);
        assert(pb == head + db + tail);
        assert(da.len() == db.len());
        assert(da =~= pa.subrange(head.len() as int, (head.len() + da.len()) as int));
        assert(db =~= pb.subrange(head.len() as int, (head.len() + db.len()) as int));
        lemma_signed_decimal_injective(a, b);
    }
}

/// A recording never writes two of its segments to the same file.
pub proof fn law_segments_distinct(s: SessionView)
    requires
        session_wf(s),
    ensures
        forall|i: int, j: int|
            0 <= i < j < s.segments.len() ==> s.segments[i] != s.segments[j],
{
    assert forall|i: int, j: int| 0 <= i < j < s.segments.len() implies s.segments[i] != s.segments[j] by {
        law_segment_paths_distinct(s.pid as nat, i, j);
    }
}

/// A live pipeline always records into the newest segment, which is the
/// segment of the current index while capturing.
pub proof fn law_live_segment_is_newest(s: SessionView)
    requires
        session_wf(s),
        s.phase == Phase::Capturing,
    ensures
        s.segments.len() >= 1,
        s.segments.last() == segment_path_text(s.pid as nat, s.index),
{
}

/// The number of resumes among some commands.
pub open spec fn resumes(cmds: Seq<SessionCommand>) -> nat
    decreases cmds.len(),
{
    if cmds.len() == 0 {
        0
    } else {
        resumes(cmds.drop_last()) + if cmds.last() == SessionCommand::Resume { 1nat } else { 0nat }
    }
}

/// Whether some commands hold no stop.
pub open spec fn without_stop(cmds: Seq<SessionCommand>) -> bool {
    forall|i: int| 0 <= i < cmds.len() ==> cmds[i] != SessionCommand::Stop
}

/// A capturing task after some commands; the descriptor requests are
/// answered in turn by `fds`. Also gives the pipelines launched, in order.
pub open spec fn run_commands(s: SessionView, cmds: Seq<SessionCommand>, fds: Seq<i32>) -> (SessionView, Seq<Seq<char>>)
    decreases cmds.len(),
{
    if cmds.len() == 0 {
        (s, Seq::empty())
    } else {
        let (s1, launched) = run_commands(s, cmds.drop_last(), fds);
        let (s2, a) = command_step(s1, Some(cmds.last()));
        if a is RequestFd {
            let fd = fds[launched.len() as int];
            (fd_step(s2, Some(fd)).0, launched.push(segment_pipeline_text(s2, fd as int)))
        } else {
            (s2, launched)
        }
    }
}

/// Commands without a stop, given to a capturing task whose descriptor
/// requests are answered in turn by `fds`, launch exactly one pipeline per
/// resume: the `j`-th records the segment after the `j` before it, on the
/// `j`-th descriptor. The task keeps capturing, its segments stay the
/// segment files in order, and each resume adds one. (The index must stay
/// within `i32`.)
pub proof fn law_commands_launch_one_per_resume(s: SessionView, cmds: Seq<SessionCommand>, fds: Seq<i32>)
    requires
        session_wf(s),
        s.phase == Phase::Capturing,
        without_stop(cmds),
        s.index + resumes(cmds) <= i32::MAX,
        fds.len() >= resumes(cmds),
    ensures
        ({
            let (t, launched) = run_commands(s, cmds, fds);
            &&& launched.len() == resumes(cmds)
            &&& forall|j: int| 0 <= j < launched.len() ==> #[trigger] launched[j] == pipeline_for(s, s.index + 1 + j, fds[j] as int)
            &&& session_wf(t)
            &&& t.phase == Phase::Capturing
            &&& t.index == s.index + launched.len()
            &&& t.segments.len() == s.segments.len() + launched.len()
            &&& s.segments.is_prefix_of(t.segments)
            &&& t.pid == s.pid && t.node_id == s.node_id && t.plan == s.plan
        }),
    decreases cmds.len(),
{
    if cmds.len() > 0 {
        let prefix = cmds.drop_last();
        assert forall|i: int| 0 <= i < prefix.len() implies prefix[i] != SessionCommand::Stop by {
            assert(prefix[i] == cmds[i]);
        }
        law_commands_launch_one_per_resume(s, prefix, fds);
        let (s1, l1) = run_commands(s, prefix, fds);
        assert(cmds.last() == cmds[cmds.len() - 1]);
        let (s2, a) = command_step(s1, Some(cmds.last()));
        if a is RequestFd {
            let fd = fds[l1.len() as int];
            let t = fd_step(s2, Some(fd)).0;
            let launched = l1.push(segment_pipeline_text(s2, fd as int));
            assert(t.segments == s1.segments.push(segment_path_text(s.pid as nat, s2.index)));
            assert(s.segments.is_prefix_of(t.segments)) by {
                assert(t.segments.subrange(0, s.segments.len() as int) =~= s1.segments.subrange(
                    0,
                    s.segments.len() as int,
                ));
            }
            assert forall|j: int| 0 <= j < launched.len() implies #[trigger] launched[j] == pipeline_for(s, s.index + 1 + j, fds[j] as int) by {
                if j < l1.len() {
                    assert(launched[j] == l1[j]);
                }
            }
        }
    }
}

/// A whole recording whose descriptor requests are all answered, the first
/// with `first_fd` and the later ones in turn by `fds`: segment 0 is launched
/// at once, then one more per resume, the `k`-th recording to
/// `/tmp/seg_<pid>_<k>.mkv`; a stop then ends the loop, and the live
/// pipeline, if any, is finalized before the join.
pub proof fn law_whole_recording(
    pid: u32,
    node_id: u32,
    plan: PlanView,
    first_fd: i32,
    fds: Seq<i32>,
    cmds: Seq<SessionCommand>,
)
    requires
        without_stop(cmds),
        resumes(cmds) < i32::MAX,
        fds.len() >= resumes(cmds),
    ensures
        ({
            let s0 = initial_session(pid, node_id, plan);
            let (s1, first) = fd_step(s0, Some(first_fd));
            let (t, launched) = run_commands(s1, cmds, fds);
            let (u, last) = command_step(t, Some(SessionCommand::Stop));
            &&& first == ActionView::Launch(pipeline_for(s0, 0, first_fd as int))
            &&& launched.len() == resumes(cmds)
            &&& forall|j: int| 0 <= j < launched.len() ==> #[trigger] launched[j] == pipeline_for(s0, j + 1, fds[j] as int)
            &&& t.segments.len() == 1 + launched.len()
            &&& forall|k: int| 0 <= k < t.segments.len() ==> #[trigger] t.segments[k] == segment_path_text(pid as nat, k)
            &&& last == ActionView::Finish
            &&& u.phase == Phase::Ended
            &&& u.segments == t.segments
            &&& u.live == t.live
        }),
{
    let s0 = initial_session(pid, node_id, plan);
    let (s1, first) = fd_step(s0, Some(first_fd));
    assert(s1.segments =~= seq![segment_path_text(pid as nat, 0)]);
    law_commands_launch_one_per_resume(s1, cmds, fds);
}

/// Pausing a recording and resuming it closes the live segment, if any,
/// asks for one descriptor, and launches exactly one new segment, the next
/// one; a failed descriptor request instead ends the loop through the join.
pub proof fn law_pause_then_resume_segment(s: SessionView, fd: Option<i32>)
    requires
        session_wf(s),
        s.phase == Phase::Capturing,
        s.index < i32::MAX,
    ensures
        ({
            let (s1, a1) = command_step(s, Some(SessionCommand::Pause));
            let (s2, a2) = command_step(s1, Some(SessionCommand::Resume));
            let (s3, a3) = fd_step(s2, fd);
            &&& a1 == (if s.live { ActionView::FinalizeSegment } else { ActionView::Wait })
            &&& !s1.live
            &&& a2 == ActionView::RequestFd
            &&& s2.index == s.index + 1
            &&& session_wf(s3)
            &&& match fd {
                Some(f) => {
                    &&& a3 == ActionView::Launch(pipeline_for(s, s.index + 1, f as int))
                    &&& s3.segments == s.segments.push(segment_path_text(s.pid as nat, s.index + 1))
                    &&& s3.live && s3.phase == Phase::Capturing
                },
                None => {
                    &&& a3 == ActionView::Finish
                    &&& s3.segments == s.segments
                    &&& s3.phase == Phase::Ended
                },
            }
        }),
{
}


/// The beginning of a segment pipeline: the muxer writing to
/// `/tmp/seg_<pid>_<index>.mkv`, then the PipeWire source on `fd` and `node`.
pub open spec fn segment_head_text(pid: nat, index: int, fd: int, node: nat) -> Seq<char> {
    "matroskamux name=mux ! filesink location=\""@ + ("/tmp/seg_"@ + decimal(pid) + "_"@
        + signed_decimal(index) + ".mkv"@) + "\" async=false pipewiresrc fd="@ + signed_decimal(fd)
        + " path="@ + decimal(node)
}

/// Whether a pipeline records segment `index` of process `pid` on `fd` and
/// `node`, at `fps`, and ends with the audio part `audio`.
pub open spec fn records_segment(
    p: Seq<char>,
    pid: nat,
    index: int,
    fd: int,
    node: nat,
    fps: nat,
    audio: Seq<char>,
) -> bool {
    &&& segment_head_text(pid, index, fd, node).is_prefix_of(p)
    &&& contains_text(p, " ! videorate ! video/x-raw,framerate="@ + decimal(fps) + rate_queue_text())
    &&& (" ! h264parse config-interval=-1 ! mux. "@ + audio).is_suffix_of(p)
}

/// Each segment a task opens is launched with a pipeline that writes to that
/// segment's file, on the descriptor just received, at the plan's rate, and
/// with the plan's audio part, whatever the segment's index.
pub proof fn law_launch_records_segment(s: SessionView, fd: i32)
    requires
        session_wf(s),
        s.phase == Phase::AwaitingFd,
    ensures
        ({
            let (t, a) = fd_step(s, Some(fd));
            &&& a matches ActionView::Launch(p) && records_segment(
                p,
                s.pid as nat,
                s.index,
                fd as int,
                s.node_id as nat,
                s.plan.fps as nat,
                s.plan.audio,
            )
            &&& t.segments == s.segments.push(
                "/tmp/seg_"@ + decimal(s.pid as nat) + "_"@ + signed_decimal(s.index) + ".mkv"@,
            )
            &&& t.live
            &&& t.phase == Phase::Capturing
            &&& t.index == s.index
        }),
{
    law_pipeline_for_records(s, s.index, fd as int);
}

/// The pipeline of any segment records that segment with the plan's audio.
pub proof fn law_pipeline_for_records(s: SessionView, index: int, fd: int)
    ensures
        records_segment(
            pipeline_for(s, index, fd),
            s.pid as nat,
            index,
            fd,
            s.node_id as nat,
            s.plan.fps as nat,
            s.plan.audio,
        ),
{
    law_recording_pipeline_parts(
        s.plan.encoder,
        segment_path_text(s.pid as nat, index),
        fd,
        s.node_id as nat,
        s.plan.scale_caps,
        s.plan.fps as nat,
        s.plan.bitrate as nat,
        s.plan.audio,
    );
}

/// In a whole recording every launched pipeline, the first and each one
/// after a resume, records its own segment `k` on the descriptor received
/// for it, at the plan's rate, and carries the plan's audio part.
pub proof fn law_whole_recording_segments(
    pid: u32,
    node_id: u32,
    plan: PlanView,
    first_fd: i32,
    fds: Seq<i32>,
    cmds: Seq<SessionCommand>,
)
    requires
        without_stop(cmds),
        resumes(cmds) < i32::MAX,
        fds.len() >= resumes(cmds),
    ensures
        ({
            let s0 = initial_session(pid, node_id, plan);
            let (s1, first) = fd_step(s0, Some(first_fd));
            let (t, launched) = run_commands(s1, cmds, fds);
            &&& first matches ActionView::Launch(p) && records_segment(
                p,
                pid as nat,
                0,
                first_fd as int,
                node_id as nat,
                plan.fps as nat,
                plan.audio,
            )
            &&& launched.len() == resumes(cmds)
            &&& forall|j: int|
                0 <= j < launched.len() ==> records_segment(
                    #[trigger] launched[j],
                    pid as nat,
                    j + 1,
                    fds[j] as int,
                    node_id as nat,
                    plan.fps as nat,
                    plan.audio,
                )
        }),
{
    let s0 = initial_session(pid, node_id, plan);
    law_whole_recording(pid, node_id, plan, first_fd, fds, cmds);
    law_pipeline_for_records(s0, 0, first_fd as int);
    let (s1, first) = fd_step(s0, Some(first_fd));
    let (t, launched) = run_commands(s1, cmds, fds);
    assert forall|j: int| 0 <= j < launched.len() implies records_segment(
        #[trigger] launched[j],
        pid as nat,
        j + 1,
        fds[j] as int,
        node_id as nat,
        plan.fps as nat,
        plan.audio,
    ) by {
        law_pipeline_for_records(s0, j + 1, fds[j] as int);
    }
}


/// What each command does to a capturing task: stop and a closed channel
/// end the loop through the join, keeping the segments and the live
/// pipeline for it to finalize; pause leaves no pipeline live and finalizes
/// the live one, if any; resume keeps the segments, moves to the next index
/// and asks for a descriptor. No command opens a segment by itself.
pub proof fn law_command_effects(s: SessionView)
    requires
        session_wf(s),
        s.phase == Phase::Capturing,
    ensures
        ({
            let (a, x) = command_step(s, Some(SessionCommand::Stop));
            let (b, y) = command_step(s, None);
            &&& x == ActionView::Finish && a.phase == Phase::Ended && a.segments == s.segments && a.live == s.live
            &&& y == ActionView::Finish && b.phase == Phase::Ended && b.segments == s.segments && b.live == s.live
        }),
        ({
            let (a, x) = command_step(s, Some(SessionCommand::Pause));
            &&& !a.live && a.segments == s.segments && a.index == s.index && a.phase == Phase::Capturing
            &&& (s.live ==> x == ActionView::FinalizeSegment)
            &&& (!s.live ==> x == ActionView::Wait)
        }),
        ({
            let (a, x) = command_step(s, Some(SessionCommand::Resume));
            &&& x == ActionView::RequestFd && a.index == s.index + 1 && a.segments == s.segments
            &&& a.phase == Phase::AwaitingFd && a.live == s.live
        }),
        fd_step(command_step(s, Some(SessionCommand::Resume)).0, None).1 == ActionView::Finish,
{
}


/// The plan takes the frame rate and bit rate of the request as they are,
/// nvenc or vaapi only by those names and x264 otherwise, and has an audio
/// part exactly when some audio is recorded. With the microphone alone the
/// audio part starts with the microphone's source; with the system sound
/// alone, with the sink monitor's source when one is known.
pub proof fn law_plan_of(
    encoder: Seq<char>,
    resolution: Seq<char>,
    fps: u32,
    bitrate: u32,
    record_mic: bool,
    mic: Seq<char>,
    record_system: bool,
    monitor: Option<Seq<char>>,
)
    ensures
        ({
            let p = plan_of(encoder, resolution, fps, bitrate, record_mic, mic, record_system, monitor);
            &&& p.fps == fps && p.bitrate == bitrate
            &&& (p.encoder == Encoder::Nvenc <==> encoder == "nvenc"@)
            &&& (p.encoder == Encoder::Vaapi <==> encoder == "vaapi"@)
            &&& (p.audio.len() == 0 <==> !record_mic && !record_system)
            &&& (record_mic && !record_system ==> (if mic == "default"@ || mic.len() == 0 {
                "pulsesrc"@
            } else {
                "pulsesrc device=\""@ + mic + "\""@
            }).is_prefix_of(p.audio))
            &&& forall|m: Seq<char>|
                !record_mic && record_system && monitor == Some(m) ==> ("pulsesrc device=\""@ + m + "\""@).is_prefix_of(p.audio)
        }),
{
    law_encoder_named(encoder);
    let v = audio_sources_of(record_mic, mic, record_system, monitor);
    law_audio_sources(record_mic, mic, record_system, monitor);
    law_audio_branch(v);
    if v.len() >= 2 {
        reveal_strlit("audiomixer name=mix ! queue ! audioconvert ! audioresample ! audiorate ! avenc_aac ! aacparse ! mux. ");
        let b = audio_branch_text(v);
        assert(b.len() > 0);
    }
    if v.len() == 1 {
        reveal_strlit(" ! queue ! audioconvert ! audioresample ! audiorate ! avenc_aac ! aacparse ! mux.");
    }
}

} // verus!
