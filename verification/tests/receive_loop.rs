use stationuli_core::receive_loop::{
    decide, receive_loop_step, LoopAction, LoopEvent, ACCEPT_WAIT_MS, ERROR_PAUSE_MS,
    IDLE_PAUSE_MS, SLOT_RETRY_PAUSE_MS, SLOT_WAIT_MS,
};
use stationuli_core::Error;

#[test]
fn waits_are_bounded() {
    assert_eq!(SLOT_WAIT_MS, 100);
    assert_eq!(ACCEPT_WAIT_MS, 1_000);
    assert_eq!(SLOT_RETRY_PAUSE_MS, 100);
    assert_eq!(IDLE_PAUSE_MS, 50);
    assert_eq!(ERROR_PAUSE_MS, 100);
}

#[test]
fn empty_slot_ends_the_loop() {
    assert_eq!(receive_loop_step(LoopEvent::SlotEmpty), LoopAction::Exit);
}

#[test]
fn timeouts_are_no_failures() {
    assert_eq!(receive_loop_step(LoopEvent::SlotTimedOut), LoopAction::Retry { pause_ms: 100 });
    assert_eq!(receive_loop_step(LoopEvent::AcceptTimedOut), LoopAction::Retry { pause_ms: 50 });
}

#[test]
fn received_file_is_announced_by_path_and_name() {
    assert_eq!(
        receive_loop_step(LoopEvent::Received("/data/received_files/report.pdf".to_string())),
        LoopAction::Notify {
            file_path: "/data/received_files/report.pdf".to_string(),
            file_name: "report.pdf".to_string(),
        }
    );
    assert_eq!(
        receive_loop_step(LoopEvent::Received("/".to_string())),
        LoopAction::Notify { file_path: "/".to_string(), file_name: "unknown".to_string() }
    );
    assert_eq!(
        decide(LoopEvent::Received("p".to_string()), Some("n".to_string())),
        LoopAction::Notify { file_path: "p".to_string(), file_name: "n".to_string() }
    );
    assert_eq!(
        decide(LoopEvent::Received("p".to_string()), None),
        LoopAction::Notify { file_path: "p".to_string(), file_name: "unknown".to_string() }
    );
}

#[test]
fn failures_are_reported_and_followed_by_a_pause() {
    assert_eq!(
        receive_loop_step(LoopEvent::Failed(Error::Protocol(
            "Expected StartTransfer message".to_string()
        ))),
        LoopAction::Report {
            message: "File receive error: Protocol error: Expected StartTransfer message"
                .to_string(),
            pause_ms: 100,
        }
    );
    assert_eq!(
        receive_loop_step(LoopEvent::DirectoryUnavailable("read-only file system".to_string())),
        LoopAction::Report {
            message: "Failed to create save directory: read-only file system".to_string(),
            pause_ms: 100,
        }
    );
}
