use camrec::{
    path_from_stamp, recording_path, AttachStage, AttachStep, GraphOp, GraphState, LinkError,
    Recorder,
};

const HEAD: &str = "queue ! videoconvert ! x264enc tune=zerolatency speed-preset=superfast key-int-max=30 ! video/x-h264,profile=main ! mp4mux streamable=true fragment-duration=1 ! filesink location=";

fn stop_sequence() -> Vec<GraphOp> {
    vec![
        GraphOp::SendEos,
        GraphOp::Sleep(500),
        GraphOp::SetBranchState(GraphState::Null),
        GraphOp::DetachBranch,
        GraphOp::SetGraphState(GraphState::Null),
        GraphOp::Sleep(100),
        GraphOp::SetGraphState(GraphState::Playing),
        GraphOp::AwaitGraphState(1000),
    ]
}

#[test]
fn happy_path_start_and_stop() {
    let mut r = Recorder::new();
    assert!(!r.is_recording());
    let desc = r.begin_start("out.mp4").expect("idle session builds a branch");
    assert_eq!(desc, format!("{HEAD}out.mp4 sync=false"));
    assert!(r.finish_start("out.mp4", Ok(())));
    assert!(r.is_recording());
    assert_eq!(r.active_path(), Some("out.mp4".to_string()));
    assert_eq!(r.stop_recording(), stop_sequence());
    assert!(!r.is_recording());
    assert_eq!(r.active_path(), None);
}

#[test]
fn duplicate_start_is_a_no_op() {
    let mut r = Recorder::new();
    r.begin_start("a.mp4").unwrap();
    assert!(r.finish_start("a.mp4", Ok(())));
    assert_eq!(r.begin_start("b.mp4"), None);
    assert!(!r.finish_start("b.mp4", Ok(())));
    assert_eq!(r.active_path(), Some("a.mp4".to_string()));
}

#[test]
fn stop_twice_is_stop_once() {
    let mut r = Recorder::new();
    r.finish_start("x.mp4", Ok(()));
    assert_eq!(r.stop_recording(), stop_sequence());
    assert!(r.stop_recording().is_empty());
    assert!(!r.is_recording());
    assert!(Recorder::new().stop_recording().is_empty());
}

#[test]
fn failed_attach_leaves_session_idle() {
    let mut r = Recorder::new();
    assert!(!r.finish_start("c.mp4", Err(LinkError::LinkRejected)));
    assert!(!r.is_recording());
    assert!(r.begin_start("c.mp4").is_some());
}

#[test]
fn attach_runs_steps_in_order() {
    let mut s = AttachStage::Begin;
    let mut steps = Vec::new();
    while let Some(step) = s.next_step() {
        steps.push(step);
        s = s.advance(true);
    }
    assert_eq!(
        steps,
        vec![
            AttachStep::RequestOutput,
            AttachStep::AddBranch,
            AttachStep::ResolveSinkPad,
            AttachStep::LinkPads,
            AttachStep::SyncState,
        ]
    );
    assert_eq!(s.outcome(), Some(Ok(())));
}

#[test]
fn each_attach_failure_has_its_error() {
    let expected = [
        LinkError::NoFreeOutput,
        LinkError::InsertionFailed,
        LinkError::MissingSinkPad,
        LinkError::LinkRejected,
        LinkError::SyncFailed,
    ];
    for (k, e) in expected.iter().enumerate() {
        let mut s = AttachStage::Begin;
        for _ in 0..k {
            s = s.advance(true);
        }
        assert_eq!(s.outcome(), None);
        let s = s.advance(false);
        assert_eq!(s, AttachStage::Failed(*e));
        assert_eq!(s.next_step(), None);
        assert_eq!(s.outcome(), Some(Err(*e)));
    }
}

#[test]
fn path_is_directory_stamp_and_extension() {
    assert_eq!(path_from_stamp("media/", "2024-01-02|03:04:05"), "media/2024-01-02|03:04:05.mp4");
    assert_eq!(recording_path("src/media/", 0), Some("src/media/1970-01-01|00:00:00.mp4".to_string()));
    assert_eq!(
        recording_path("", 1_700_000_000),
        Some("2023-11-14|22:13:20.mp4".to_string())
    );
    assert_eq!(recording_path("d/", i64::MAX), None);
}
