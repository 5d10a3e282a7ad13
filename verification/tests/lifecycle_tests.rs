use namefix_bridge::error::BridgeError;
use namefix_bridge::lifecycle::{
    stop_outcome, Lifecycle, ShutdownAction, ShutdownEvent, ShutdownStage, ShutdownStep, StopOutcome,
    Trigger, GRACE_PERIOD_MS, STOP_METHOD,
};

#[test]
fn starting_becomes_ready_when_launched() {
    assert_eq!(Lifecycle::Starting.next(Trigger::Launched), Lifecycle::Ready);
    assert_eq!(Lifecycle::Ready.next(Trigger::Launched), Lifecycle::Ready);
}

#[test]
fn end_of_stream_and_failed_write_set_the_fuse() {
    for state in [Lifecycle::Starting, Lifecycle::Ready, Lifecycle::Dead] {
        assert_eq!(state.next(Trigger::EndOfStream), Lifecycle::Dead);
        assert_eq!(state.next(Trigger::WriteFailed), Lifecycle::Dead);
    }
}

#[test]
fn dead_is_terminal() {
    for trigger in [Trigger::Launched, Trigger::EndOfStream, Trigger::WriteFailed] {
        assert_eq!(Lifecycle::Dead.next(trigger), Lifecycle::Dead);
    }
    assert!(Lifecycle::Dead.dead());
    assert!(!Lifecycle::Ready.dead());
    assert!(!Lifecycle::Starting.dead());
}

#[test]
fn shutdown_asks_waits_and_kills_whatever_the_worker_answers() {
    for outcome in [StopOutcome::Answered, StopOutcome::Failed, StopOutcome::TimedOut] {
        let asked = ShutdownStage::Idle.advance(ShutdownEvent::Requested);
        assert_eq!(asked, ShutdownStep { stage: ShutdownStage::Asked, action: ShutdownAction::AskToStop });
        let waiting = asked.stage.advance(ShutdownEvent::StopSettled(outcome));
        assert_eq!(
            waiting,
            ShutdownStep { stage: ShutdownStage::Waiting, action: ShutdownAction::Wait(GRACE_PERIOD_MS) }
        );
        let finished = waiting.stage.advance(ShutdownEvent::GraceElapsed);
        assert_eq!(
            finished,
            ShutdownStep { stage: ShutdownStage::Finished, action: ShutdownAction::ForceKill }
        );
    }
}

#[test]
fn shutdown_can_be_asked_for_again() {
    for stage in [ShutdownStage::Idle, ShutdownStage::Asked, ShutdownStage::Waiting, ShutdownStage::Finished] {
        assert_eq!(
            stage.advance(ShutdownEvent::Requested),
            ShutdownStep { stage: ShutdownStage::Asked, action: ShutdownAction::AskToStop }
        );
    }
}

#[test]
fn events_out_of_turn_do_nothing() {
    assert_eq!(
        ShutdownStage::Idle.advance(ShutdownEvent::GraceElapsed),
        ShutdownStep { stage: ShutdownStage::Idle, action: ShutdownAction::Nothing }
    );
    assert_eq!(
        ShutdownStage::Asked.advance(ShutdownEvent::GraceElapsed),
        ShutdownStep { stage: ShutdownStage::Asked, action: ShutdownAction::Nothing }
    );
    assert_eq!(
        ShutdownStage::Waiting.advance(ShutdownEvent::StopSettled(StopOutcome::Answered)),
        ShutdownStep { stage: ShutdownStage::Waiting, action: ShutdownAction::Nothing }
    );
    assert_eq!(
        ShutdownStage::Finished.advance(ShutdownEvent::GraceElapsed),
        ShutdownStep { stage: ShutdownStage::Finished, action: ShutdownAction::Nothing }
    );
}

#[test]
fn grace_period_and_stop_method() {
    assert_eq!(GRACE_PERIOD_MS, 500);
    assert_eq!(STOP_METHOD, "shutdown");
}

#[test]
fn stop_outcome_reads_what_the_caller_was_told() {
    assert_eq!(stop_outcome(&Ok(serde_json::Value::Null)), StopOutcome::Answered);
    assert_eq!(stop_outcome(&Err(BridgeError::Timeout)), StopOutcome::TimedOut);
    assert_eq!(stop_outcome(&Err(BridgeError::Disconnected)), StopOutcome::Failed);
    assert_eq!(stop_outcome(&Err(BridgeError::Rpc("busy".to_string()))), StopOutcome::Failed);
    assert_eq!(stop_outcome(&Err(BridgeError::ChannelClosed)), StopOutcome::Failed);
}
