//! Decisions of the Chromium backend loop: what wakes the loop, when it
//! stops, how the bridge watcher reacts to a wait outcome, and how shutdown
//! progress is tracked. The threads and channels that carry these decisions
//! out live with the host.

use vstd::prelude::*;

use std::collections::VecDeque;

use crate::bridge::client::{EventWaitResult, IpcClient};
use crate::bridge::event::IpcEvent;
use crate::bridge::BridgeError;
use crate::data::custom_scheme::ChromeCustomSchemeRegistration;

verus! {

/// Why the backend loop woke up.
#[derive(Debug, Clone, Copy, PartialEq, Eq, Structural)]
pub enum BackendWake {
    CommandReady,
    BackendInputReady,
    Stopped,
    DeadlineReached,
}

/// Why the backend stopped, as far as the wake state can tell.
#[derive(Debug, Clone, Copy, PartialEq, Eq, Structural)]
pub enum BackendStopReason {
    Disconnected,
}

/// Where a deadline stands at a given instant.
#[derive(Debug, Clone, Copy, PartialEq, Eq, Structural)]
pub enum DeadlineStatus {
    NoDeadline,
    Pending,
    Reached,
}

/// Classify a deadline at instant `now`; instants are monotonic ticks.
pub fn classify_deadline(now: u64, deadline: Option<u64>) -> (s: DeadlineStatus)
    ensures
        s == (match deadline {
            None => DeadlineStatus::NoDeadline,
            Some(d) => if now >= d {
                DeadlineStatus::Reached
            } else {
                DeadlineStatus::Pending
            },
        }),
{
    match deadline {
        None => DeadlineStatus::NoDeadline,
        Some(d) => if now >= d {
            DeadlineStatus::Reached
        } else {
            DeadlineStatus::Pending
        },
    }
}

/// What the backend loop has been told and not yet handled.
pub struct WakeStateInner<C> {
    pub pending_commands: VecDeque<C>,
    pub command_channel_closed: bool,
    pub backend_input_ready: bool,
    pub backend_terminal: Option<EventWaitResult>,
    pub wait_error: Option<BridgeError>,
}

/// The wake-up a state calls for, pending commands first, then bridge input,
/// then a stop; none when nothing is waiting.
pub open spec fn spec_ready_wake<C>(inner: WakeStateInner<C>) -> Option<BackendWake> {
    if inner.pending_commands@.len() > 0 {
        Some(BackendWake::CommandReady)
    } else if inner.backend_input_ready || inner.wait_error is Some {
        Some(BackendWake::BackendInputReady)
    } else if inner.command_channel_closed || inner.backend_terminal is Some {
        Some(BackendWake::Stopped)
    } else {
        None
    }
}

/// The stop reason of a state: only once no work is left, when the command
/// channel closed or the bridge disconnected or closed.
pub open spec fn spec_stop_reason<C>(inner: WakeStateInner<C>) -> Option<BackendStopReason> {
    if inner.pending_commands@.len() > 0 || inner.backend_input_ready || inner.wait_error is Some {
        None
    } else if inner.command_channel_closed {
        Some(BackendStopReason::Disconnected)
    } else {
        match inner.backend_terminal {
            Some(EventWaitResult::Disconnected) => Some(BackendStopReason::Disconnected),
            Some(EventWaitResult::Closed) => Some(BackendStopReason::Disconnected),
            _ => None,
        }
    }
}

/// Whether bridge input is still waiting to be handled.
pub open spec fn spec_input_pending<C>(inner: WakeStateInner<C>) -> bool {
    inner.backend_input_ready || inner.wait_error is Some
}

/// The wake-up a state calls for, if any.
pub fn classify_ready_wake<C>(inner: &WakeStateInner<C>) -> (w: Option<BackendWake>)
    ensures
        w == spec_ready_wake(*inner),
{
    if inner.pending_commands.len() > 0 {
        return Some(BackendWake::CommandReady);
    }
    if inner.backend_input_ready || inner.wait_error.is_some() {
        return Some(BackendWake::BackendInputReady);
    }
    if inner.command_channel_closed || inner.backend_terminal.is_some() {
        return Some(BackendWake::Stopped);
    }
    None
}

/// The wake-up after a timed wait ran out: the ready wake-up, else the deadline.
pub fn classify_timeout_wake<C>(inner: &WakeStateInner<C>) -> (w: BackendWake)
    ensures
        w == (match spec_ready_wake(*inner) {
            Some(ready) => ready,
            None => BackendWake::DeadlineReached,
        }),
{
    match classify_ready_wake(inner) {
        Some(ready) => ready,
        None => BackendWake::DeadlineReached,
    }
}

/// The reason to stop the backend, once all work is drained.
pub fn stop_reason_from_wake_state<C>(inner: &WakeStateInner<C>) -> (r: Option<BackendStopReason>)
    ensures
        r == spec_stop_reason(*inner),
{
    if inner.pending_commands.len() > 0 || inner.backend_input_ready || inner.wait_error.is_some() {
        return None;
    }
    if inner.command_channel_closed {
        return Some(BackendStopReason::Disconnected);
    }
    match inner.backend_terminal {
        Some(EventWaitResult::Disconnected) => Some(BackendStopReason::Disconnected),
        Some(EventWaitResult::Closed) => Some(BackendStopReason::Disconnected),
        _ => None,
    }
}

/// What the bridge watcher does after a wait outcome.
#[derive(Debug, Clone, Copy, PartialEq, Eq, Structural)]
pub enum WatchStep {
    /// Wait again.
    Continue,
    /// Block until the loop has handled the input, then wait again.
    AwaitRelease,
    /// The bridge is gone: stop watching.
    Stop,
}

/// What the backend loop does next while it waits for a deadline.
#[derive(Debug, Clone, Copy, PartialEq, Eq, Structural)]
pub enum WaitDecision {
    /// Return this wake-up.
    Wake(BackendWake),
    /// Block until notified.
    Block,
    /// Block until notified or until the deadline.
    BlockUntil(u64),
}

impl<C> WakeStateInner<C> {
    /// A state with nothing waiting.
    pub fn new() -> (s: Self)
        ensures
            s.pending_commands@.len() == 0,
            !s.command_channel_closed,
            !s.backend_input_ready,
            s.backend_terminal is None,
            s.wait_error is None,
    {
        WakeStateInner {
            pending_commands: VecDeque::new(),
            command_channel_closed: false,
            backend_input_ready: false,
            backend_terminal: None,
            wait_error: None,
        }
    }

    /// Queue a command behind the ones already pending.
    pub fn push_command(&mut self, command: C)
        ensures
            final(self).pending_commands@ == old(self).pending_commands@.push(command),
            final(self).command_channel_closed == old(self).command_channel_closed,
            final(self).backend_input_ready == old(self).backend_input_ready,
            final(self).backend_terminal == old(self).backend_terminal,
            final(self).wait_error == old(self).wait_error,
    {
        self.pending_commands.push_back(command);
    }

    /// Record that no more commands will arrive.
    pub fn mark_command_channel_closed(&mut self)
        ensures
            final(self).pending_commands@ == old(self).pending_commands@,
            final(self).command_channel_closed,
            final(self).backend_input_ready == old(self).backend_input_ready,
            final(self).backend_terminal == old(self).backend_terminal,
            final(self).wait_error == old(self).wait_error,
    {
        self.command_channel_closed = true;
    }

    /// Record that the bridge has an event ready.
    pub fn mark_backend_input_ready(&mut self)
        ensures
            final(self).pending_commands@ == old(self).pending_commands@,
            final(self).command_channel_closed == old(self).command_channel_closed,
            final(self).backend_input_ready,
            final(self).backend_terminal == old(self).backend_terminal,
            final(self).wait_error == old(self).wait_error,
    {
        self.backend_input_ready = true;
    }

    /// Record how the bridge ended.
    pub fn mark_backend_terminal(&mut self, wait_result: EventWaitResult)
        ensures
            final(self).pending_commands@ == old(self).pending_commands@,
            final(self).command_channel_closed == old(self).command_channel_closed,
            final(self).backend_input_ready == old(self).backend_input_ready,
            final(self).backend_terminal == Some(wait_result),
            final(self).wait_error == old(self).wait_error,
    {
        self.backend_terminal = Some(wait_result);
    }

    /// Record a failed wait; it counts as bridge input to handle.
    pub fn mark_wait_error(&mut self, err: BridgeError)
        ensures
            final(self).pending_commands@ == old(self).pending_commands@,
            final(self).command_channel_closed == old(self).command_channel_closed,
            final(self).backend_input_ready,
            final(self).backend_terminal == old(self).backend_terminal,
            final(self).wait_error == Some(err),
    {
        self.wait_error = Some(err);
        self.backend_input_ready = true;
    }

    /// Take every pending command, oldest first.
    pub fn take_pending_commands(&mut self) -> (taken: Vec<C>)
        ensures
            taken@ == old(self).pending_commands@,
            final(self).pending_commands@.len() == 0,
            final(self).command_channel_closed == old(self).command_channel_closed,
            final(self).backend_input_ready == old(self).backend_input_ready,
            final(self).backend_terminal == old(self).backend_terminal,
            final(self).wait_error == old(self).wait_error,
    {
        let mut taken: Vec<C> = Vec::new();
        while self.pending_commands.len() > 0
            invariant
                taken@ + self.pending_commands@ == old(self).pending_commands@,
                self.command_channel_closed == old(self).command_channel_closed,
                self.backend_input_ready == old(self).backend_input_ready,
                self.backend_terminal == old(self).backend_terminal,
                self.wait_error == old(self).wait_error,
            decreases self.pending_commands@.len(),
        {
            let ghost before = self.pending_commands@;
            match self.pending_commands.pop_front() {
                Some(command) => {
                    taken.push(command);
                    assert(taken@ + self.pending_commands@ =~= old(self).pending_commands@) by {
                        assert(before == seq![command] + self.pending_commands@);
                    }
                },
                None => {},
            }
        }
        assert(taken@ =~= old(self).pending_commands@);
        taken
    }

    /// Take the recorded wait error, if any.
    pub fn take_wait_error(&mut self) -> (err: Option<BridgeError>)
        ensures
            err == old(self).wait_error,
            final(self).wait_error is None,
            final(self).pending_commands@ == old(self).pending_commands@,
            final(self).command_channel_closed == old(self).command_channel_closed,
            final(self).backend_input_ready == old(self).backend_input_ready,
            final(self).backend_terminal == old(self).backend_terminal,
    {
        let err = self.wait_error;
        self.wait_error = None;
        err
    }

    /// Record that the loop has handled the ready bridge input.
    pub fn acknowledge_backend_input(&mut self)
        ensures
            !final(self).backend_input_ready,
            final(self).pending_commands@ == old(self).pending_commands@,
            final(self).command_channel_closed == old(self).command_channel_closed,
            final(self).backend_terminal == old(self).backend_terminal,
            final(self).wait_error == old(self).wait_error,
    {
        self.backend_input_ready = false;
    }

    /// Whether the bridge watcher must keep waiting for the loop to handle input.
    pub fn input_release_pending(&self) -> (b: bool)
        ensures
            b == spec_input_pending(*self),
    {
        self.backend_input_ready || self.wait_error.is_some()
    }

    /// Record one outcome of the bridge watcher's wait, and say what the
    /// watcher does next.
    pub fn apply_wait_outcome(&mut self, outcome: Result<EventWaitResult, BridgeError>) -> (step:
        WatchStep)
        ensures
            final(self).pending_commands@ == old(self).pending_commands@,
            final(self).command_channel_closed == old(self).command_channel_closed,
            match outcome {
                Ok(EventWaitResult::EventAvailable) => {
                    &&& step == WatchStep::AwaitRelease
                    &&& final(self).backend_input_ready
                    &&& final(self).backend_terminal == old(self).backend_terminal
                    &&& final(self).wait_error == old(self).wait_error
                },
                Ok(EventWaitResult::TimedOut) => {
                    &&& step == WatchStep::Continue
                    &&& final(self).backend_input_ready == old(self).backend_input_ready
                    &&& final(self).backend_terminal == old(self).backend_terminal
                    &&& final(self).wait_error == old(self).wait_error
                },
                Ok(terminal) => {
                    &&& step == WatchStep::Stop
                    &&& final(self).backend_terminal == Some(terminal)
                    &&& final(self).backend_input_ready == old(self).backend_input_ready
                    &&& final(self).wait_error == old(self).wait_error
                },
                Err(err) => {
                    &&& step == WatchStep::AwaitRelease
                    &&& final(self).backend_input_ready
                    &&& final(self).wait_error == Some(err)
                    &&& final(self).backend_terminal == old(self).backend_terminal
                },
            },
    {
        match outcome {
            Ok(EventWaitResult::EventAvailable) => {
                self.mark_backend_input_ready();
                WatchStep::AwaitRelease
            },
            Ok(EventWaitResult::TimedOut) => WatchStep::Continue,
            Ok(terminal) => {
                self.mark_backend_terminal(terminal);
                WatchStep::Stop
            },
            Err(err) => {
                self.mark_wait_error(err);
                WatchStep::AwaitRelease
            },
        }
    }

    /// What the loop does next while it waits until `deadline`.
    pub open spec fn wait_decision_spec(self, now: u64, deadline: Option<u64>) -> WaitDecision {
        match spec_ready_wake(self) {
            Some(w) => WaitDecision::Wake(w),
            None => match deadline {
                None => WaitDecision::Block,
                Some(t) => if now >= t {
                    WaitDecision::Wake(BackendWake::DeadlineReached)
                } else {
                    WaitDecision::BlockUntil(t)
                },
            },
        }
    }

    /// One step of waiting until `deadline`: return a wake-up when one is
    /// ready or the deadline has passed, else block (until the deadline, if any).
    pub fn wait_decision(&self, now: u64, deadline: Option<u64>) -> (d: WaitDecision)
        ensures
            d == self.wait_decision_spec(now, deadline),
    {
        if let Some(wake) = classify_ready_wake(self) {
            return WaitDecision::Wake(wake);
        }
        match classify_deadline(now, deadline) {
            DeadlineStatus::NoDeadline => WaitDecision::Block,
            DeadlineStatus::Reached => WaitDecision::Wake(BackendWake::DeadlineReached),
            DeadlineStatus::Pending => match deadline {
                Some(t) => WaitDecision::BlockUntil(t),
                None => WaitDecision::Block,
            },
        }
    }
}

/// Whether a wake-up is one the delegate is told of (every one but a stop).
pub fn wake_notifies_delegate(wake: BackendWake) -> (b: bool)
    ensures
        b == (wake != BackendWake::Stopped),
{
    match wake {
        BackendWake::Stopped => false,
        _ => true,
    }
}

/// Progress of a shutdown the backend requested.
#[derive(Debug, Clone, Copy, PartialEq, Eq, Default, Structural)]
pub enum ShutdownState {
    #[default]
    Idle,
    Proceeding { request_id: u64 },
}

/// The shutdown state after an event: a proceeding shutdown records its
/// request, a cancelled one returns to idle, any other event changes nothing.
pub open spec fn spec_next_shutdown_state(state: ShutdownState, event: IpcEvent) -> ShutdownState {
    match event {
        IpcEvent::ShutdownProceeding { request_id } => ShutdownState::Proceeding { request_id },
        IpcEvent::ShutdownCancelled { .. } => ShutdownState::Idle,
        _ => state,
    }
}

/// Track shutdown progress through an event.
pub fn update_shutdown_state(shutdown_state: &mut ShutdownState, event: &IpcEvent)
    ensures
        *final(shutdown_state) == spec_next_shutdown_state(*old(shutdown_state), *event),
{
    match event {
        IpcEvent::ShutdownProceeding { request_id } => {
            *shutdown_state = ShutdownState::Proceeding { request_id: *request_id };
        },
        IpcEvent::ShutdownCancelled { .. } => {
            *shutdown_state = ShutdownState::Idle;
        },
        _ => {},
    }
}

/// A stop reason is given only once all work is drained: no command is
/// pending, no bridge input waits, and the state calls for a stop wake-up.
pub proof fn lemma_stop_only_when_drained<C>(inner: WakeStateInner<C>)
    ensures
        spec_stop_reason(inner) is Some ==> {
            &&& inner.pending_commands@.len() == 0
            &&& !spec_input_pending(inner)
            &&& spec_ready_wake(inner) == Some(BackendWake::Stopped)
        },
{
}

/// Pending commands wake the loop first, whatever else the state holds;
/// without one, pending bridge input comes next; the loop stays asleep only
/// when nothing at all is waiting.
pub proof fn lemma_wake_priority<C>(inner: WakeStateInner<C>)
    ensures
        inner.pending_commands@.len() > 0 ==> spec_ready_wake(inner) == Some(BackendWake::CommandReady),
        inner.pending_commands@.len() == 0 && spec_input_pending(inner) ==> spec_ready_wake(inner)
            == Some(BackendWake::BackendInputReady),
        spec_ready_wake(inner) is None <==> {
            &&& inner.pending_commands@.len() == 0
            &&& !spec_input_pending(inner)
            &&& !inner.command_channel_closed
            &&& inner.backend_terminal is None
        },
{
}

/// Once the loop has taken the commands, acknowledged the input and taken
/// the wait error, the only wake-up left is a stop, due exactly when the
/// command channel closed or the bridge ended; and the bridge watcher is
/// released.
pub proof fn lemma_drained_state_wakes_only_to_stop<C>(inner: WakeStateInner<C>)
    requires
        inner.pending_commands@.len() == 0,
        !inner.backend_input_ready,
        inner.wait_error is None,
    ensures
        !spec_input_pending(inner),
        spec_ready_wake(inner) != Some(BackendWake::CommandReady),
        spec_ready_wake(inner) != Some(BackendWake::BackendInputReady),
        spec_ready_wake(inner) == Some(BackendWake::Stopped) <==> (inner.command_channel_closed
            || inner.backend_terminal is Some),
{
}

/// A wait that runs out always wakes the loop: for the ready reason if there
/// is one, else for the deadline; and a ready reason always ends a wait.
pub proof fn lemma_wait_always_ends_with_ready_wake<C>(inner: WakeStateInner<C>, now: u64, deadline: u64)
    ensures
        spec_ready_wake(inner) matches Some(w) ==> inner.wait_decision_spec(now, Some(deadline))
            == WaitDecision::Wake(w),
        now >= deadline ==> inner.wait_decision_spec(now, Some(deadline)) is Wake,
{
}

/// A cancelled shutdown returns to idle, whatever request was proceeding.
pub proof fn lemma_shutdown_cancel_returns_idle(state: ShutdownState, proceeding: u64, cancelled: u64)
    ensures
        spec_next_shutdown_state(
            spec_next_shutdown_state(state, IpcEvent::ShutdownProceeding { request_id: proceeding }),
            IpcEvent::ShutdownCancelled { request_id: cancelled },
        ) == ShutdownState::Idle,
        spec_next_shutdown_state(state, IpcEvent::ShutdownProceeding { request_id: proceeding })
            == (ShutdownState::Proceeding { request_id: proceeding }),
{
}

/// Only a proceeding or a cancelled shutdown changes the shutdown state.
pub proof fn lemma_shutdown_ignores_other_events(state: ShutdownState, event: IpcEvent)
    requires
        !(event is ShutdownProceeding),
        !(event is ShutdownCancelled),
    ensures
        spec_next_shutdown_state(state, event) == state,
{
}

/// Options for controlling the Chromium backend.
#[derive(Debug, Clone)]
pub struct ChromiumBackendOptions {
    pub custom_scheme_registrations: Vec<ChromeCustomSchemeRegistration>,
}

impl ChromiumBackendOptions {
    /// Options with no custom scheme registration.
    pub fn new() -> (o: Self)
        ensures
            o.custom_scheme_registrations@.len() == 0,
    {
        ChromiumBackendOptions { custom_scheme_registrations: Vec::new() }
    }
}

/// Backend that speaks the Chromium bridge protocol through a connected client.
#[derive(Debug)]
pub struct ChromiumBackend {
    pub options: ChromiumBackendOptions,
    pub client: IpcClient,
}

impl ChromiumBackend {
    /// A backend over a connected client.
    pub fn new(options: ChromiumBackendOptions, client: IpcClient) -> (b: Self)
        ensures
            b.options == options,
            b.client == client,
    {
        ChromiumBackend { options, client }
    }
}

} // verus!
