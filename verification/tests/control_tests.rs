use rscreenrec::control::{folder_choice_reply, Recorder, RecStatus, Reply, SessionCommand, StartOutcome};

fn ready_recorder(node: u32) -> Recorder {
    let mut r = Recorder::new();
    assert!(!r.begin_capture_setup());
    r.finish_capture_setup(node);
    r
}

#[test]
fn new_recorder_is_idle() {
    let r = Recorder::new();
    assert_eq!(r.status_text(), "idle");
    assert_eq!(r.session(), None);
    assert_eq!(r.capture(), None);
    assert!(!r.preview_running());
}

#[test]
fn start_without_capture_cannot_be_served() {
    let r = Recorder::new();
    assert!(!r.can_start());
    assert_eq!(r.status_text(), "idle");
    assert!(ready_recorder(1).can_start());
}

#[test]
fn start_records_on_capture_node() {
    let mut r = ready_recorder(57);
    let out = r.start();
    assert_eq!(out, StartOutcome::Started { node_id: 57 });
    assert_eq!(out.reply(), Reply::Started);
    assert_eq!(Reply::Started.status_code(), 200);
    assert_eq!(Reply::Started.text(), "Started");
    assert_eq!(r.status_text(), "recording");
}

#[test]
fn second_start_is_refused() {
    let mut r = ready_recorder(3);
    r.start();
    let out = r.start();
    assert_eq!(out, StartOutcome::AlreadyRecording);
    let reply = out.reply();
    assert!(r.can_start());
    assert_eq!(reply.status_code(), 400);
    assert_eq!(reply.text(), "Already recording");
    assert_eq!(r.session(), Some(RecStatus::Recording));
}

#[test]
fn pause_and_resume() {
    let mut r = ready_recorder(3);
    r.start();
    let p = r.pause();
    assert_eq!(p.reply, Reply::Paused);
    assert_eq!(p.command, Some(SessionCommand::Pause));
    assert_eq!(p.reply.status_code(), 200);
    assert_eq!(p.reply.text(), "Paused");
    assert_eq!(r.status_text(), "paused");
    let q = r.resume();
    assert_eq!(q.reply, Reply::Resumed);
    assert_eq!(q.command, Some(SessionCommand::Resume));
    assert_eq!(q.reply.text(), "Resumed");
    assert_eq!(r.status_text(), "recording");
}

#[test]
fn pause_twice_sends_two_pauses() {
    let mut r = ready_recorder(3);
    r.start();
    r.pause();
    let p = r.pause();
    assert_eq!(p.reply, Reply::Paused);
    assert_eq!(p.command, Some(SessionCommand::Pause));
    assert_eq!(r.status_text(), "paused");
}

#[test]
fn stop_ends_recording() {
    let mut r = ready_recorder(3);
    r.start();
    let s = r.stop();
    assert_eq!(s.reply, Reply::Stopped);
    assert_eq!(s.command, Some(SessionCommand::Stop));
    assert_eq!(s.reply.text(), "Stopped");
    assert_eq!(r.status_text(), "idle");
    assert_eq!(r.capture(), Some(3));
}

#[test]
fn requests_while_idle_are_refused() {
    let mut r = ready_recorder(3);
    for out in [r.stop(), r.pause(), r.resume()] {
        assert_eq!(out.reply, Reply::NotRecording);
        assert_eq!(out.command, None);
        assert_eq!(out.reply.status_code(), 400);
        assert_eq!(out.reply.text(), "Not recording");
    }
    assert_eq!(r.status_text(), "idle");
}

#[test]
fn exit_stops_running_recording() {
    let mut r = ready_recorder(3);
    r.start();
    let e = r.exit();
    assert_eq!(e.reply, Reply::Exiting);
    assert_eq!(e.command, Some(SessionCommand::Stop));
    assert_eq!(e.reply.status_code(), 200);
    assert_eq!(e.reply.text(), "Exiting");
    assert_eq!(r.status_text(), "idle");
    let e2 = r.exit();
    assert_eq!(e2.reply, Reply::Exiting);
    assert_eq!(e2.command, None);
}

#[test]
fn finished_session_clears_status() {
    let mut r = ready_recorder(3);
    r.start();
    r.pause();
    r.session_finished();
    assert_eq!(r.status_text(), "idle");
    assert_eq!(r.start(), StartOutcome::Started { node_id: 3 });
}

#[test]
fn capture_setup_replaces_preview_and_keeps_session() {
    let mut r = ready_recorder(3);
    assert!(r.preview_running());
    r.start();
    assert!(r.begin_capture_setup());
    assert!(!r.preview_running());
    r.finish_capture_setup(9);
    assert_eq!(r.capture(), Some(9));
    assert_eq!(r.status_text(), "recording");
}

#[test]
fn folder_choice() {
    assert_eq!(folder_choice_reply(Some("/home/u/Videos".to_string())), (200, "/home/u/Videos".to_string()));
    assert_eq!(folder_choice_reply(None), (400, String::new()));
}
