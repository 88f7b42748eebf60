use audio_passthrough::error::EngineError;
use audio_passthrough::stopper::Stopper;
use audio_passthrough::supervisor::{advance_stage, step_for, Stage, Step, Supervisor};

#[test]
fn a_fresh_signal_is_not_set() {
    let stopper = Stopper::new();
    assert!(!stopper.is_stop_requested());
}

#[test]
fn a_sent_signal_is_seen_through_every_handle() {
    let stopper = Stopper::new();
    let shared = stopper.share();
    stopper.send_stop_signal();
    assert!(stopper.is_stop_requested());
    assert!(shared.is_stop_requested());
    stopper.send_stop_signal();
    assert!(shared.is_stop_requested());
}

#[test]
fn supervisor_opens_and_starts_both_streams_in_order() {
    let mut supervisor = Supervisor::new(Stopper::new());
    assert_eq!(supervisor.stage(), Stage::OpenCapture);
    assert_eq!(supervisor.step(), Step::OpenCapture);
    assert_eq!(supervisor.advance(true), Step::OpenRender);
    assert_eq!(supervisor.advance(true), Step::StartCapture);
    assert_eq!(supervisor.advance(true), Step::StartRender);
    assert_eq!(supervisor.advance(true), Step::Sleep(15));
    assert_eq!(supervisor.stage(), Stage::Watching);
}

#[test]
fn supervisor_sleeps_until_the_signal_is_set() {
    let stopper = Stopper::new();
    let mut supervisor = Supervisor::new(stopper.share());
    for _ in 0..4 {
        supervisor.advance(true);
    }
    for _ in 0..100 {
        assert_eq!(supervisor.advance(true), Step::Sleep(15));
    }
    stopper.send_stop_signal();
    assert_eq!(supervisor.advance(true), Step::Exit(Ok(())));
    assert_eq!(supervisor.stage(), Stage::Ended);
    assert_eq!(supervisor.advance(true), Step::Exit(Ok(())));
}

#[test]
fn supervisor_leaves_at_once_if_told_to_stop_while_starting() {
    let stopper = Stopper::new();
    let mut supervisor = Supervisor::new(stopper.share());
    stopper.send_stop_signal();
    assert_eq!(supervisor.advance(true), Step::OpenRender);
    assert_eq!(supervisor.advance(true), Step::StartCapture);
    assert_eq!(supervisor.advance(true), Step::StartRender);
    assert_eq!(supervisor.advance(true), Step::Exit(Ok(())));
}

#[test]
fn a_stream_that_fails_ends_the_run_with_stream_setup_failed() {
    for failing in 0..4 {
        let mut supervisor = Supervisor::new(Stopper::new());
        for _ in 0..failing {
            supervisor.advance(true);
        }
        assert_eq!(supervisor.advance(false), Step::Exit(Err(EngineError::StreamSetupFailed)));
        assert_eq!(supervisor.stage(), Stage::Failed);
        assert_eq!(supervisor.advance(true), Step::Exit(Err(EngineError::StreamSetupFailed)));
    }
}

#[test]
fn advance_stage_follows_the_table() {
    assert_eq!(advance_stage(Stage::OpenCapture, true, true), Stage::OpenRender);
    assert_eq!(advance_stage(Stage::OpenCapture, false, false), Stage::Failed);
    assert_eq!(advance_stage(Stage::OpenRender, true, false), Stage::StartCapture);
    assert_eq!(advance_stage(Stage::OpenRender, false, true), Stage::Failed);
    assert_eq!(advance_stage(Stage::StartCapture, true, true), Stage::StartRender);
    assert_eq!(advance_stage(Stage::StartCapture, false, false), Stage::Failed);
    assert_eq!(advance_stage(Stage::StartRender, true, false), Stage::Watching);
    assert_eq!(advance_stage(Stage::StartRender, true, true), Stage::Ended);
    assert_eq!(advance_stage(Stage::StartRender, false, true), Stage::Failed);
    assert_eq!(advance_stage(Stage::Watching, true, false), Stage::Watching);
    assert_eq!(advance_stage(Stage::Watching, false, false), Stage::Watching);
    assert_eq!(advance_stage(Stage::Watching, false, true), Stage::Ended);
    assert_eq!(advance_stage(Stage::Ended, true, false), Stage::Ended);
    assert_eq!(advance_stage(Stage::Failed, true, true), Stage::Failed);
}

#[test]
fn step_for_names_the_action_of_each_stage() {
    assert_eq!(step_for(Stage::OpenCapture), Step::OpenCapture);
    assert_eq!(step_for(Stage::OpenRender), Step::OpenRender);
    assert_eq!(step_for(Stage::StartCapture), Step::StartCapture);
    assert_eq!(step_for(Stage::StartRender), Step::StartRender);
    assert_eq!(step_for(Stage::Watching), Step::Sleep(15));
    assert_eq!(step_for(Stage::Ended), Step::Exit(Ok(())));
    assert_eq!(step_for(Stage::Failed), Step::Exit(Err(EngineError::StreamSetupFailed)));
}
