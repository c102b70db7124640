use rscreenrec::control::SessionCommand;
use rscreenrec::pipeline::{recording_pipeline, Encoder};
use rscreenrec::session::{Phase, RecordConfig, RecordingPlan, RecordingSession, SessionAction};

fn config(encoder: &str, mic: bool, system: bool) -> RecordConfig {
    RecordConfig {
        fps: 30,
        quality_bitrate: 8000,
        resolution: "1920x1080".to_string(),
        encoder: encoder.to_string(),
        record_mic: mic,
        record_system_audio: system,
        mic_source: "default".to_string(),
        output_folder: "/home/u/Videos".to_string(),
        show_cursor: true,
    }
}

fn launched(a: SessionAction) -> String {
    match a {
        SessionAction::Launch { pipeline } => pipeline,
        _ => panic!("launch expected"),
    }
}

#[test]
fn plan_from_config() {
    let p = RecordingPlan::from_config(&config("vaapi", true, true), &Some("out.monitor".to_string()));
    assert_eq!(p.encoder, Encoder::Vaapi);
    assert_eq!(p.scale_caps, ",width=1920,height=1080");
    assert_eq!(p.fps, 30);
    assert_eq!(p.bitrate, 8000);
    assert_eq!(
        p.audio,
        "audiomixer name=mix ! queue ! audioconvert ! audioresample ! audiorate ! avenc_aac ! aacparse ! mux. pulsesrc ! queue ! mix. pulsesrc device=\"out.monitor\" ! queue ! mix."
    );
    let q = RecordingPlan::from_config(&config("other", false, false), &None);
    assert_eq!(q.encoder, Encoder::X264);
    assert_eq!(q.audio, "");
}

#[test]
fn first_segment_is_launched() {
    let plan = RecordingPlan::from_config(&config("nvenc", false, false), &None);
    let mut s = RecordingSession::new(321, 55, plan);
    assert_eq!(s.phase(), Phase::AwaitingFd);
    let pipeline = launched(s.on_fd(Some(12)));
    assert_eq!(
        pipeline,
        recording_pipeline(Encoder::Nvenc, "/tmp/seg_321_0.mkv", 12, 55, ",width=1920,height=1080", 30, 8000, "")
    );
    assert_eq!(s.segments(), &vec!["/tmp/seg_321_0.mkv".to_string()]);
    assert!(s.is_live());
    assert_eq!(s.phase(), Phase::Capturing);
}

#[test]
fn no_fd_at_first_abandons() {
    let plan = RecordingPlan::from_config(&config("nvenc", false, false), &None);
    let mut s = RecordingSession::new(1, 2, plan);
    assert!(matches!(s.on_fd(None), SessionAction::Abandon));
    assert_eq!(s.phase(), Phase::Ended);
    assert!(s.segments().is_empty());
}

#[test]
fn pause_resume_opens_next_segment() {
    let plan = RecordingPlan::from_config(&config("x264", false, false), &None);
    let mut s = RecordingSession::new(7, 2, plan);
    launched(s.on_fd(Some(3)));
    assert!(matches!(s.on_command(Some(SessionCommand::Pause)), SessionAction::FinalizeSegment));
    assert!(!s.is_live());
    assert!(matches!(s.on_command(Some(SessionCommand::Pause)), SessionAction::Wait));
    assert!(matches!(s.on_command(Some(SessionCommand::Resume)), SessionAction::RequestFd));
    assert_eq!(s.segment_index(), 1);
    assert_eq!(s.phase(), Phase::AwaitingFd);
    let p = launched(s.on_fd(Some(4)));
    assert!(p.contains("location=\"/tmp/seg_7_1.mkv\""));
    assert!(p.contains("fd=4 "));
    assert_eq!(s.segments(), &vec!["/tmp/seg_7_0.mkv".to_string(), "/tmp/seg_7_1.mkv".to_string()]);
    assert!(matches!(s.on_command(Some(SessionCommand::Stop)), SessionAction::Finish));
    assert!(s.finish());
    assert!(!s.is_live());
}

#[test]
fn resume_without_fd_finishes() {
    let plan = RecordingPlan::from_config(&config("x264", false, false), &None);
    let mut s = RecordingSession::new(7, 2, plan);
    launched(s.on_fd(Some(3)));
    s.on_command(Some(SessionCommand::Pause));
    s.on_command(Some(SessionCommand::Resume));
    assert!(matches!(s.on_fd(None), SessionAction::Finish));
    assert!(!s.finish());
    assert_eq!(s.segments().len(), 1);
}

#[test]
fn closed_channel_finishes() {
    let plan = RecordingPlan::from_config(&config("x264", false, false), &None);
    let mut s = RecordingSession::new(7, 2, plan);
    launched(s.on_fd(Some(3)));
    assert!(matches!(s.on_command(None), SessionAction::Finish));
    assert!(s.finish());
}

#[test]
fn segments_never_share_a_file() {
    let plan = RecordingPlan::from_config(&config("x264", true, false), &None);
    let mut s = RecordingSession::new(99, 1, plan);
    launched(s.on_fd(Some(3)));
    for _ in 0..12 {
        s.on_command(Some(SessionCommand::Pause));
        s.on_command(Some(SessionCommand::Resume));
        launched(s.on_fd(Some(3)));
    }
    let segs = s.segments();
    assert_eq!(segs.len(), 13);
    for i in 0..segs.len() {
        assert_eq!(segs[i], format!("/tmp/seg_{}_{}.mkv", 99, i));
        for j in 0..i {
            assert_ne!(segs[i], segs[j]);
        }
    }
}

#[test]
fn pause_then_resume_launches_one_segment() {
    let plan = RecordingPlan::from_config(&config("nvenc", false, false), &None);
    let mut s = RecordingSession::new(5, 8, plan);
    launched(s.on_fd(Some(3)));
    assert!(matches!(s.on_command(Some(SessionCommand::Pause)), SessionAction::FinalizeSegment));
    assert!(matches!(s.on_command(Some(SessionCommand::Resume)), SessionAction::RequestFd));
    let p = launched(s.on_fd(Some(6)));
    assert_eq!(
        p,
        recording_pipeline(Encoder::Nvenc, "/tmp/seg_5_1.mkv", 6, 8, ",width=1920,height=1080", 30, 8000, "")
    );
    assert_eq!(s.segments().len(), 2);
    assert!(s.is_live());
}

#[test]
fn resume_while_live_launches_next_segment() {
    let plan = RecordingPlan::from_config(&config("nvenc", false, false), &None);
    let mut s = RecordingSession::new(5, 8, plan);
    launched(s.on_fd(Some(3)));
    assert!(matches!(s.on_command(Some(SessionCommand::Resume)), SessionAction::RequestFd));
    assert!(s.is_live());
    launched(s.on_fd(Some(4)));
    assert_eq!(s.segments(), &vec!["/tmp/seg_5_0.mkv".to_string(), "/tmp/seg_5_1.mkv".to_string()]);
}
