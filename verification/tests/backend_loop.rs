use std::collections::VecDeque;

use cbf_chrome::backend::{
    classify_deadline, classify_ready_wake, classify_timeout_wake, stop_reason_from_wake_state,
    update_shutdown_state, wake_notifies_delegate, BackendStopReason, BackendWake, ChromiumBackend,
    ChromiumBackendOptions, DeadlineStatus, ShutdownState, WaitDecision, WakeStateInner, WatchStep,
};
use cbf_chrome::bridge::client::{EventWaitResult, IpcClient};
use cbf_chrome::bridge::event::IpcEvent;
use cbf_chrome::bridge::BridgeError;
use cbf_chrome::data::ids::TabId;

#[derive(Debug, Clone, Copy, PartialEq, Eq)]
enum SampleCommand {
    ForceShutdown,
    Reload,
}

fn idle() -> WakeStateInner<SampleCommand> {
    WakeStateInner::new()
}

#[test]
fn ready_wake_classification_prefers_pending_command() {
    let mut inner = WakeStateInner {
        command_channel_closed: true,
        backend_input_ready: true,
        backend_terminal: Some(EventWaitResult::Disconnected),
        wait_error: Some(BridgeError::ConnectionFailed),
        ..idle()
    };
    inner.pending_commands.push_back(SampleCommand::ForceShutdown);

    assert_eq!(classify_ready_wake(&inner), Some(BackendWake::CommandReady));
}

#[test]
fn ready_wake_classification_prefers_backend_input_over_stop() {
    let inner = WakeStateInner {
        command_channel_closed: true,
        backend_input_ready: true,
        backend_terminal: Some(EventWaitResult::Closed),
        ..idle()
    };

    assert_eq!(classify_ready_wake(&inner), Some(BackendWake::BackendInputReady));
}

#[test]
fn ready_wake_classification_returns_stopped_only_after_work_is_drained() {
    let stopped = WakeStateInner { command_channel_closed: true, ..idle() };
    let quiet = idle();

    assert_eq!(classify_ready_wake(&stopped), Some(BackendWake::Stopped));
    assert_eq!(classify_ready_wake(&quiet), None);
}

#[test]
fn deadline_classification_handles_none_due_and_future() {
    let now: u64 = 5_000;

    assert_eq!(classify_deadline(now, None), DeadlineStatus::NoDeadline);
    assert_eq!(classify_deadline(now, Some(now - 1)), DeadlineStatus::Reached);
    assert_eq!(classify_deadline(now, Some(now + 1_000)), DeadlineStatus::Pending);
}

#[test]
fn deadline_classification_counts_the_deadline_instant_as_reached() {
    assert_eq!(classify_deadline(7, Some(7)), DeadlineStatus::Reached);
}

#[test]
fn timeout_wake_classification_falls_back_to_deadline_when_idle() {
    let quiet = idle();
    let mut command_ready = idle();
    command_ready.pending_commands.push_back(SampleCommand::ForceShutdown);

    assert_eq!(classify_timeout_wake(&quiet), BackendWake::DeadlineReached);
    assert_eq!(classify_timeout_wake(&command_ready), BackendWake::CommandReady);
}

#[test]
fn stop_reason_classification_requires_pending_work_to_be_drained() {
    let mut pending_command = WakeStateInner { command_channel_closed: true, ..idle() };
    pending_command.pending_commands.push_back(SampleCommand::ForceShutdown);
    let backend_input = WakeStateInner {
        command_channel_closed: true,
        backend_input_ready: true,
        ..idle()
    };
    let wait_error = WakeStateInner {
        command_channel_closed: true,
        wait_error: Some(BridgeError::ConnectionFailed),
        ..idle()
    };

    assert_eq!(stop_reason_from_wake_state(&pending_command), None);
    assert_eq!(stop_reason_from_wake_state(&backend_input), None);
    assert_eq!(stop_reason_from_wake_state(&wait_error), None);
}

#[test]
fn stop_reason_classification_maps_only_terminal_states() {
    let command_closed = WakeStateInner { command_channel_closed: true, ..idle() };
    let disconnected = WakeStateInner {
        backend_terminal: Some(EventWaitResult::Disconnected),
        ..idle()
    };
    let closed = WakeStateInner { backend_terminal: Some(EventWaitResult::Closed), ..idle() };
    let event_available = WakeStateInner {
        backend_terminal: Some(EventWaitResult::EventAvailable),
        ..idle()
    };
    let timed_out = WakeStateInner { backend_terminal: Some(EventWaitResult::TimedOut), ..idle() };

    assert_eq!(
        stop_reason_from_wake_state(&command_closed),
        Some(BackendStopReason::Disconnected)
    );
    assert_eq!(
        stop_reason_from_wake_state(&disconnected),
        Some(BackendStopReason::Disconnected)
    );
    assert_eq!(stop_reason_from_wake_state(&closed), Some(BackendStopReason::Disconnected));
    assert_eq!(stop_reason_from_wake_state(&event_available), None);
    assert_eq!(stop_reason_from_wake_state(&timed_out), None);
}

#[test]
fn backend_input_and_terminal_wait_results_map_to_wakes() {
    let mut inner = idle();

    assert_eq!(
        inner.apply_wait_outcome(Ok(EventWaitResult::EventAvailable)),
        WatchStep::AwaitRelease
    );
    assert_eq!(
        inner.wait_decision(0, Some(1_000)),
        WaitDecision::Wake(BackendWake::BackendInputReady)
    );
    inner.acknowledge_backend_input();
    assert!(!inner.input_release_pending());

    assert_eq!(inner.apply_wait_outcome(Ok(EventWaitResult::Disconnected)), WatchStep::Stop);
    assert_eq!(inner.wait_decision(0, Some(1_000)), WaitDecision::Wake(BackendWake::Stopped));
    assert_eq!(stop_reason_from_wake_state(&inner), Some(BackendStopReason::Disconnected));
}

#[test]
fn command_wake_beats_long_deadline() {
    let mut inner = idle();
    assert_eq!(inner.wait_decision(20, Some(1_000)), WaitDecision::BlockUntil(1_000));

    inner.push_command(SampleCommand::ForceShutdown);

    assert_eq!(
        inner.wait_decision(20, Some(1_000)),
        WaitDecision::Wake(BackendWake::CommandReady)
    );
}

#[test]
fn waiting_without_deadline_blocks_and_a_passed_deadline_wakes() {
    let inner = idle();
    assert_eq!(inner.wait_decision(10, None), WaitDecision::Block);
    assert_eq!(
        inner.wait_decision(10, Some(10)),
        WaitDecision::Wake(BackendWake::DeadlineReached)
    );
}

#[test]
fn pending_commands_are_taken_oldest_first() {
    let mut inner = idle();
    inner.push_command(SampleCommand::Reload);
    inner.push_command(SampleCommand::ForceShutdown);

    let taken = inner.take_pending_commands();

    assert_eq!(taken, vec![SampleCommand::Reload, SampleCommand::ForceShutdown]);
    assert!(inner.pending_commands.is_empty());
    assert_eq!(classify_ready_wake(&inner), None);
}

#[test]
fn wait_error_counts_as_input_until_taken_and_acknowledged() {
    let mut inner = idle();
    assert_eq!(
        inner.apply_wait_outcome(Err(BridgeError::InvalidEvent)),
        WatchStep::AwaitRelease
    );
    assert_eq!(classify_ready_wake(&inner), Some(BackendWake::BackendInputReady));
    assert!(inner.input_release_pending());

    assert_eq!(inner.take_wait_error(), Some(BridgeError::InvalidEvent));
    assert_eq!(inner.take_wait_error(), None);
    assert!(inner.input_release_pending());
    inner.acknowledge_backend_input();
    assert!(!inner.input_release_pending());
}

#[test]
fn timed_out_wait_changes_nothing() {
    let mut inner = idle();
    assert_eq!(inner.apply_wait_outcome(Ok(EventWaitResult::TimedOut)), WatchStep::Continue);
    assert_eq!(classify_ready_wake(&inner), None);
    assert_eq!(inner.backend_terminal, None);
}

#[test]
fn closing_the_command_channel_stops_once_drained() {
    let mut inner = idle();
    inner.push_command(SampleCommand::Reload);
    inner.mark_command_channel_closed();
    assert_eq!(stop_reason_from_wake_state(&inner), None);

    let _ = inner.take_pending_commands();
    assert_eq!(classify_ready_wake(&inner), Some(BackendWake::Stopped));
    assert_eq!(stop_reason_from_wake_state(&inner), Some(BackendStopReason::Disconnected));
}

#[test]
fn only_stop_wakes_skip_the_delegate() {
    assert!(wake_notifies_delegate(BackendWake::CommandReady));
    assert!(wake_notifies_delegate(BackendWake::BackendInputReady));
    assert!(wake_notifies_delegate(BackendWake::DeadlineReached));
    assert!(!wake_notifies_delegate(BackendWake::Stopped));
}

#[test]
fn update_shutdown_state_tracks_proceeding_and_cancelled_events() {
    let mut shutdown_state = ShutdownState::Idle;

    update_shutdown_state(&mut shutdown_state, &IpcEvent::ShutdownProceeding { request_id: 11 });
    assert_eq!(shutdown_state, ShutdownState::Proceeding { request_id: 11 });

    update_shutdown_state(&mut shutdown_state, &IpcEvent::ShutdownCancelled { request_id: 11 });
    assert_eq!(shutdown_state, ShutdownState::Idle);
}

#[test]
fn update_shutdown_state_ignores_shutdown_blocked() {
    let mut shutdown_state = ShutdownState::Idle;

    update_shutdown_state(
        &mut shutdown_state,
        &IpcEvent::ShutdownBlocked { request_id: 5, dirty_browsing_context_ids: Vec::new() },
    );

    assert_eq!(shutdown_state, ShutdownState::Idle);
}

#[test]
fn shutdown_state_keeps_proceeding_through_other_events() {
    let mut shutdown_state = ShutdownState::Proceeding { request_id: 3 };
    update_shutdown_state(
        &mut shutdown_state,
        &IpcEvent::TabClosed { profile_id: String::new(), browsing_context_id: TabId::new(1) },
    );
    assert_eq!(shutdown_state, ShutdownState::Proceeding { request_id: 3 });
}

#[test]
fn backend_options_start_without_custom_schemes() {
    let options = ChromiumBackendOptions::new();
    assert!(options.custom_scheme_registrations.is_empty());
    let backend = ChromiumBackend::new(options, IpcClient::from_handle(9));
    assert_eq!(backend.client.handle(), 9);
}

#[test]
fn fresh_wake_state_has_nothing_pending() {
    let inner: WakeStateInner<SampleCommand> = WakeStateInner::new();
    assert_eq!(inner.pending_commands, VecDeque::new());
    assert!(!inner.command_channel_closed);
    assert_eq!(classify_ready_wake(&inner), None);
}
