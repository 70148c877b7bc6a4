use vstd::prelude::*;

use crate::command::CaptureCommand;
use crate::errors::DeviceError;
use crate::net::NetworkEndpoint;

verus! {

/// Control code that starts the external video source streaming.
pub const VIDIOC_STREAMON: u32 = 1074026002;

/// Control code that stops the external video source streaming.
pub const VIDIOC_STREAMOFF: u32 = 1074026003;

/// Control code that queues a frame buffer with the external video source.
pub const VIDIOC_QBUF: u32 = 3227014671;

/// Control code that dequeues a filled frame buffer from the external video
/// source.
pub const VIDIOC_DQBUF: u32 = 3227014673;

/// Number of queue/pause/dequeue iterations a capture loop runs when the
/// caller does not choose another count.
pub const DEFAULT_CAPTURE_ITERATIONS: u64 = 100;

/// Coarse pause, in milliseconds, between queuing a frame buffer and
/// dequeuing it again.
pub const CAPTURE_PAUSE_MILLIS: u64 = 25;

/// The well-known path of the external video source every capture loop
/// opens.
pub fn source_path() -> (p: &'static str)
    ensures
        p@ == "/dev/video2"@,
{
    "/dev/video2"
}

/// Everything one capture-loop instance needs to decide its next move: the
/// two arguments taken from the decoded command, the iteration count, the
/// pause length, and the relay endpoint. Constant for the life of the loop.
#[derive(Clone, Copy, Debug, PartialEq, Eq, Structural)]
pub struct CaptureConfig {
    /// Argument of the streaming start/stop commands, from the decoded
    /// command's `command_kind` field.
    pub command_kind: u64,
    /// Argument of the queue/dequeue commands, from the decoded command's
    /// `buffer_descriptor` field.
    pub buffer_descriptor: u64,
    /// How many queue/pause/dequeue/forward iterations to run.
    pub iterations: u64,
    /// How long to pause between queuing and dequeuing, in milliseconds.
    pub pause_millis: u64,
    /// Where the relay connection is made; constant for this loop instance.
    pub endpoint: NetworkEndpoint,
}

impl CaptureConfig {
    /// Configuration for one loop instance, from a decoded command, a chosen
    /// iteration count and the relay endpoint.
    pub fn from_command(
        command: &CaptureCommand,
        iterations: u64,
        endpoint: NetworkEndpoint,
    ) -> (cfg: CaptureConfig)
        ensures
            cfg.command_kind == command.command_kind,
            cfg.buffer_descriptor == command.buffer_descriptor,
            cfg.iterations == iterations,
            cfg.pause_millis == CAPTURE_PAUSE_MILLIS,
            cfg.endpoint == endpoint,
    {
        CaptureConfig {
            command_kind: command.command_kind,
            buffer_descriptor: command.buffer_descriptor,
            iterations,
            pause_millis: CAPTURE_PAUSE_MILLIS,
            endpoint,
        }
    }
}

/// The pending step within one capture iteration.
#[derive(Clone, Copy, Debug, PartialEq, Eq, Structural)]
pub enum CapturePhase {
    /// The queue-buffer command is pending.
    Queue,
    /// The coarse pause between queue and dequeue is pending.
    Pause,
    /// The dequeue-buffer command is pending.
    Dequeue,
    /// Forwarding the captured frame over the relay is pending.
    Forward,
}

/// Where a capture loop stands. Each state names the milestone reached; the
/// action still to perform from it is `spec_capture_action`.
#[derive(Clone, Copy, Debug, PartialEq, Eq, Structural)]
pub enum CaptureState {
    /// Nothing done yet; the external source must be opened first.
    Idle,
    /// The external source is open; the relay connection is pending.
    SourceOpen,
    /// The relay connection is up; the streaming-start command is pending.
    TransportConnected,
    /// The streaming-start command was issued; capture iterations follow.
    Streaming,
    /// In the middle of the capture iterations: `remaining` iterations are
    /// left, counting the current one, and `phase` is the pending step.
    Capturing { remaining: u64, phase: CapturePhase },
    /// All iterations are done; the streaming-stop command is pending.
    Stopping,
    /// The streaming-stop command was issued; resources are to be released.
    StreamStopped,
    /// The relay connection failed; the source handle is to be released
    /// without any control command having been issued.
    ConnectFailed,
    /// A cancellation arrived while the stream may be on; the streaming-stop
    /// command is pending before anything is released.
    CancelStopping,
    /// A cancellation arrived; whatever is held is to be released.
    CancelReleasing,
    /// Source handle and connection released; the loop ran to its end.
    Released,
    /// The relay connection failed and the source was released; the loop is
    /// over without a single control command having been issued.
    TransportFailed,
    /// The loop was cancelled, stopped the stream if it was on, released
    /// what it held, and is over.
    Cancelled,
    /// The external source could not be opened; the loop is over without any
    /// control command or release.
    Aborted,
}

/// What the platform must do next on behalf of the capture loop.
#[derive(Clone, Copy, Debug, PartialEq, Eq, Structural)]
pub enum CaptureAction {
    /// Open the external video source at its well-known path.
    OpenSource,
    /// Connect the outbound relay stream to `endpoint`.
    Connect { endpoint: NetworkEndpoint },
    /// Issue the control command `code` with the 64-bit `argument`.
    SendControl { code: u32, argument: u64 },
    /// Pause for `millis` milliseconds.
    Pause { millis: u64 },
    /// Forward the captured frame named by `descriptor` over the relay.
    ForwardFrame { descriptor: u64 },
    /// Close the source handle and the relay connection.
    Release,
    /// Nothing: the loop is over.
    Done,
}

/// The action pending in `state`. The full table, in the order the loop
/// normally runs:
/// open the source, connect the relay, start streaming, then per iteration
/// queue / pause / dequeue / forward, then stop streaming and release. A
/// loop configured with zero iterations stops streaming right away; a failed
/// connect releases the source; a failed source open leaves nothing to do; a
/// cancelled loop stops the stream if it was on, then releases.
pub open spec fn spec_capture_action(state: CaptureState, cfg: CaptureConfig) -> CaptureAction {
    match state {
        CaptureState::Idle => CaptureAction::OpenSource,
        CaptureState::SourceOpen => CaptureAction::Connect { endpoint: cfg.endpoint },
        CaptureState::TransportConnected => CaptureAction::SendControl {
            code: VIDIOC_STREAMON,
            argument: cfg.command_kind,
        },
        CaptureState::Streaming => if cfg.iterations == 0 {
            CaptureAction::SendControl { code: VIDIOC_STREAMOFF, argument: cfg.command_kind }
        } else {
            CaptureAction::SendControl { code: VIDIOC_QBUF, argument: cfg.buffer_descriptor }
        },
        CaptureState::Capturing { remaining, phase } => match phase {
            CapturePhase::Queue => CaptureAction::SendControl {
                code: VIDIOC_QBUF,
                argument: cfg.buffer_descriptor,
            },
            CapturePhase::Pause => CaptureAction::Pause { millis: cfg.pause_millis },
            CapturePhase::Dequeue => CaptureAction::SendControl {
                code: VIDIOC_DQBUF,
                argument: cfg.buffer_descriptor,
            },
            CapturePhase::Forward => CaptureAction::ForwardFrame {
                descriptor: cfg.buffer_descriptor,
            },
        },
        CaptureState::Stopping => CaptureAction::SendControl {
            code: VIDIOC_STREAMOFF,
            argument: cfg.command_kind,
        },
        CaptureState::StreamStopped => CaptureAction::Release,
        CaptureState::ConnectFailed => CaptureAction::Release,
        CaptureState::CancelStopping => CaptureAction::SendControl {
            code: VIDIOC_STREAMOFF,
            argument: cfg.command_kind,
        },
        CaptureState::CancelReleasing => CaptureAction::Release,
        CaptureState::Released => CaptureAction::Done,
        CaptureState::TransportFailed => CaptureAction::Done,
        CaptureState::Cancelled => CaptureAction::Done,
        CaptureState::Aborted => CaptureAction::Done,
    }
}

/// The state after performing the pending action of `state`, given whether
/// that action `succeeded`. Only the two acquisitions branch on the outcome:
/// a failed source open aborts the loop before any control command, and a
/// failed connect releases the source and ends the loop in its own terminal
/// state. Control-command failures are tolerated, so that the streaming-stop
/// command is always reached once streaming began.
pub open spec fn spec_capture_step(
    state: CaptureState,
    succeeded: bool,
    cfg: CaptureConfig,
) -> CaptureState {
    match state {
        CaptureState::Idle => if succeeded {
            CaptureState::SourceOpen
        } else {
            CaptureState::Aborted
        },
        CaptureState::SourceOpen => if succeeded {
            CaptureState::TransportConnected
        } else {
            CaptureState::ConnectFailed
        },
        CaptureState::TransportConnected => CaptureState::Streaming,
        CaptureState::Streaming => if cfg.iterations == 0 {
            CaptureState::StreamStopped
        } else {
            CaptureState::Capturing { remaining: cfg.iterations, phase: CapturePhase::Pause }
        },
        CaptureState::Capturing { remaining, phase } => match phase {
            CapturePhase::Queue => CaptureState::Capturing {
                remaining,
                phase: CapturePhase::Pause,
            },
            CapturePhase::Pause => CaptureState::Capturing {
                remaining,
                phase: CapturePhase::Dequeue,
            },
            CapturePhase::Dequeue => CaptureState::Capturing {
                remaining,
                phase: CapturePhase::Forward,
            },
            CapturePhase::Forward => if remaining > 1 {
                CaptureState::Capturing {
                    remaining: (remaining - 1) as u64,
                    phase: CapturePhase::Queue,
                }
            } else {
                CaptureState::Stopping
            },
        },
        CaptureState::Stopping => CaptureState::StreamStopped,
        CaptureState::StreamStopped => CaptureState::Released,
        CaptureState::ConnectFailed => CaptureState::TransportFailed,
        CaptureState::CancelStopping => CaptureState::CancelReleasing,
        CaptureState::CancelReleasing => CaptureState::Cancelled,
        CaptureState::Released => CaptureState::Released,
        CaptureState::TransportFailed => CaptureState::TransportFailed,
        CaptureState::Cancelled => CaptureState::Cancelled,
        CaptureState::Aborted => CaptureState::Aborted,
    }
}

/// The state after a cancellation signal reaches the loop in `state`. If the
/// stream may be on, the streaming-stop command is still issued first; then
/// whatever is held is released. A loop that holds nothing yet, or is
/// already finished or already winding down, is unaffected beyond ending.
pub open spec fn spec_capture_cancel(state: CaptureState) -> CaptureState {
    match state {
        CaptureState::Idle => CaptureState::Cancelled,
        CaptureState::SourceOpen => CaptureState::CancelReleasing,
        CaptureState::TransportConnected => CaptureState::CancelReleasing,
        CaptureState::Streaming => CaptureState::CancelStopping,
        CaptureState::Capturing { .. } => CaptureState::CancelStopping,
        CaptureState::Stopping => CaptureState::CancelStopping,
        CaptureState::StreamStopped => CaptureState::CancelReleasing,
        CaptureState::ConnectFailed => CaptureState::CancelReleasing,
        CaptureState::CancelStopping => CaptureState::CancelStopping,
        CaptureState::CancelReleasing => CaptureState::CancelReleasing,
        CaptureState::Released => CaptureState::Released,
        CaptureState::TransportFailed => CaptureState::TransportFailed,
        CaptureState::Cancelled => CaptureState::Cancelled,
        CaptureState::Aborted => CaptureState::Aborted,
    }
}

/// A state the loop can actually be in: a capturing state never has more
/// iterations left than were configured, and never zero.
pub open spec fn capture_state_wf(state: CaptureState, cfg: CaptureConfig) -> bool {
    state matches CaptureState::Capturing { remaining, .. } ==> 1 <= remaining
        <= cfg.iterations
}

/// A state in which the loop has finished and its pending action is `Done`.
pub open spec fn capture_state_terminal(state: CaptureState) -> bool {
    ||| state == CaptureState::Released
    ||| state == CaptureState::TransportFailed
    ||| state == CaptureState::Cancelled
    ||| state == CaptureState::Aborted
}

/// A state in which a cancellation has been accepted and the loop is winding
/// down but not yet terminal.
pub open spec fn capture_state_cancelling(state: CaptureState) -> bool {
    state == CaptureState::CancelStopping || state == CaptureState::CancelReleasing
}

/// The action to perform next from `state`.
pub fn capture_action(state: CaptureState, cfg: &CaptureConfig) -> (action: CaptureAction)
    ensures
        action == spec_capture_action(state, *cfg),
{
    match state {
        CaptureState::Idle => CaptureAction::OpenSource,
        CaptureState::SourceOpen => CaptureAction::Connect { endpoint: cfg.endpoint },
        CaptureState::TransportConnected => CaptureAction::SendControl {
            code: VIDIOC_STREAMON,
            argument: cfg.command_kind,
        },
        CaptureState::Streaming => if cfg.iterations == 0 {
            CaptureAction::SendControl { code: VIDIOC_STREAMOFF, argument: cfg.command_kind }
        } else {
            CaptureAction::SendControl { code: VIDIOC_QBUF, argument: cfg.buffer_descriptor }
        },
        CaptureState::Capturing { remaining: _, phase } => match phase {
            CapturePhase::Queue => CaptureAction::SendControl {
                code: VIDIOC_QBUF,
                argument: cfg.buffer_descriptor,
            },
            CapturePhase::Pause => CaptureAction::Pause { millis: cfg.pause_millis },
            CapturePhase::Dequeue => CaptureAction::SendControl {
                code: VIDIOC_DQBUF,
                argument: cfg.buffer_descriptor,
            },
            CapturePhase::Forward => CaptureAction::ForwardFrame {
                descriptor: cfg.buffer_descriptor,
            },
        },
        CaptureState::Stopping => CaptureAction::SendControl {
            code: VIDIOC_STREAMOFF,
            argument: cfg.command_kind,
        },
        CaptureState::StreamStopped => CaptureAction::Release,
        CaptureState::ConnectFailed => CaptureAction::Release,
        CaptureState::CancelStopping => CaptureAction::SendControl {
            code: VIDIOC_STREAMOFF,
            argument: cfg.command_kind,
        },
        CaptureState::CancelReleasing => CaptureAction::Release,
        CaptureState::Released => CaptureAction::Done,
        CaptureState::TransportFailed => CaptureAction::Done,
        CaptureState::Cancelled => CaptureAction::Done,
        CaptureState::Aborted => CaptureAction::Done,
    }
}

/// The state after the pending action of `state` ran with outcome
/// `succeeded`.
pub fn capture_step(state: CaptureState, succeeded: bool, cfg: &CaptureConfig) -> (next:
    CaptureState)
    ensures
        next == spec_capture_step(state, succeeded, *cfg),
{
    match state {
        CaptureState::Idle => if succeeded {
            CaptureState::SourceOpen
        } else {
            CaptureState::Aborted
        },
        CaptureState::SourceOpen => if succeeded {
            CaptureState::TransportConnected
        } else {
            CaptureState::ConnectFailed
        },
        CaptureState::TransportConnected => CaptureState::Streaming,
        CaptureState::Streaming => if cfg.iterations == 0 {
            CaptureState::StreamStopped
        } else {
            CaptureState::Capturing { remaining: cfg.iterations, phase: CapturePhase::Pause }
        },
        CaptureState::Capturing { remaining, phase } => match phase {
            CapturePhase::Queue => CaptureState::Capturing {
                remaining,
                phase: CapturePhase::Pause,
            },
            CapturePhase::Pause => CaptureState::Capturing {
                remaining,
                phase: CapturePhase::Dequeue,
            },
            CapturePhase::Dequeue => CaptureState::Capturing {
                remaining,
                phase: CapturePhase::Forward,
            },
            CapturePhase::Forward => if remaining > 1 {
                CaptureState::Capturing { remaining: remaining - 1, phase: CapturePhase::Queue }
            } else {
                CaptureState::Stopping
            },
        },
        CaptureState::Stopping => CaptureState::StreamStopped,
        CaptureState::StreamStopped => CaptureState::Released,
        CaptureState::ConnectFailed => CaptureState::TransportFailed,
        CaptureState::CancelStopping => CaptureState::CancelReleasing,
        CaptureState::CancelReleasing => CaptureState::Cancelled,
        CaptureState::Released => CaptureState::Released,
        CaptureState::TransportFailed => CaptureState::TransportFailed,
        CaptureState::Cancelled => CaptureState::Cancelled,
        CaptureState::Aborted => CaptureState::Aborted,
    }
}

/// The state after a cancellation signal reaches the loop in `state`.
pub fn capture_cancel(state: CaptureState) -> (next: CaptureState)
    ensures
        next == spec_capture_cancel(state),
{
    match state {
        CaptureState::Idle => CaptureState::Cancelled,
        CaptureState::SourceOpen => CaptureState::CancelReleasing,
        CaptureState::TransportConnected => CaptureState::CancelReleasing,
        CaptureState::Streaming => CaptureState::CancelStopping,
        CaptureState::Capturing { .. } => CaptureState::CancelStopping,
        CaptureState::Stopping => CaptureState::CancelStopping,
        CaptureState::StreamStopped => CaptureState::CancelReleasing,
        CaptureState::ConnectFailed => CaptureState::CancelReleasing,
        CaptureState::CancelStopping => CaptureState::CancelStopping,
        CaptureState::CancelReleasing => CaptureState::CancelReleasing,
        CaptureState::Released => CaptureState::Released,
        CaptureState::TransportFailed => CaptureState::TransportFailed,
        CaptureState::Cancelled => CaptureState::Cancelled,
        CaptureState::Aborted => CaptureState::Aborted,
    }
}

/// The error a finished loop reports on its result channel: an aborted loop
/// could not open the external source, a transport-failed loop could not
/// connect the relay. A run that was released normally or cancelled reports
/// no error (control-command failures along the way are tolerated and not
/// escalated), and a state that is not yet terminal reports nothing.
pub fn capture_failure(state: CaptureState) -> (e: Option<DeviceError>)
    ensures
        state == CaptureState::Aborted ==> e == Some(DeviceError::SourceUnavailable),
        state == CaptureState::TransportFailed ==> e == Some(DeviceError::TransportUnavailable),
        state != CaptureState::Aborted && state != CaptureState::TransportFailed ==> e
            == None::<DeviceError>,
    {
    if state == CaptureState::Aborted {
        Some(DeviceError::SourceUnavailable)
    } else if state == CaptureState::TransportFailed {
        Some(DeviceError::TransportUnavailable)
    } else {
        None
    }
}

/// How many steps `state` is from a terminal state, at worst.
pub open spec fn capture_measure(state: CaptureState, cfg: CaptureConfig) -> nat {
    match state {
        CaptureState::Idle => if cfg.iterations == 0 {
            8nat
        } else {
            (4 * (cfg.iterations - 1) + 11) as nat
        },
        CaptureState::SourceOpen => if cfg.iterations == 0 {
            7nat
        } else {
            (4 * (cfg.iterations - 1) + 10) as nat
        },
        CaptureState::TransportConnected => if cfg.iterations == 0 {
            6nat
        } else {
            (4 * (cfg.iterations - 1) + 9) as nat
        },
        CaptureState::Streaming => if cfg.iterations == 0 {
            5nat
        } else {
            (4 * (cfg.iterations - 1) + 8) as nat
        },
        CaptureState::Capturing { remaining, phase } => {
            let phase_left: nat = match phase {
                CapturePhase::Queue => 8nat,
                CapturePhase::Pause => 7nat,
                CapturePhase::Dequeue => 6nat,
                CapturePhase::Forward => 5nat,
            };
            (4 * (remaining - 1) + phase_left) as nat
        },
        CaptureState::Stopping => 4,
        CaptureState::StreamStopped => 3,
        CaptureState::ConnectFailed => 3,
        CaptureState::CancelStopping => 2,
        CaptureState::CancelReleasing => 1,
        CaptureState::Released => 0,
        CaptureState::TransportFailed => 0,
        CaptureState::Cancelled => 0,
        CaptureState::Aborted => 0,
    }
}

/// Law: the capture loop is a finite sequence. Every step from a
/// well-formed, non-terminal state lands in a well-formed state strictly
/// closer to a terminal one, so a loop driven by `capture_action` and
/// `capture_step` performs finitely many actions, whatever the outcomes.
pub proof fn lemma_capture_step_terminates(
    state: CaptureState,
    succeeded: bool,
    cfg: CaptureConfig,
)
    requires
        capture_state_wf(state, cfg),
        !capture_state_terminal(state),
    ensures
        capture_state_wf(spec_capture_step(state, succeeded, cfg), cfg),
        capture_measure(spec_capture_step(state, succeeded, cfg), cfg) < capture_measure(
            state,
            cfg,
        ),
{
}

/// Law: a cancellation never lengthens the loop. From a state that is
/// neither terminal nor already winding down it strictly shortens the way to
/// a terminal state; everywhere else it changes nothing. Together with the
/// step law, a driver that interleaves steps and cancellations still
/// finishes.
pub proof fn lemma_capture_cancel_terminates(state: CaptureState, cfg: CaptureConfig)
    requires
        capture_state_wf(state, cfg),
    ensures
        capture_state_wf(spec_capture_cancel(state), cfg),
        capture_state_terminal(state) || capture_state_cancelling(state)
            ==> spec_capture_cancel(state) == state,
        !capture_state_terminal(state) && !capture_state_cancelling(state) ==> capture_measure(
            spec_capture_cancel(state),
            cfg,
        ) < capture_measure(state, cfg),
{
}

/// Law: when the external source cannot be opened, the loop aborts before
/// issuing any control command — the aborted state is terminal, nothing is
/// pending in it, and in particular the streaming-stop command is never
/// attempted.
pub proof fn lemma_source_failure_aborts(cfg: CaptureConfig, succeeded: bool)
    ensures
        spec_capture_step(CaptureState::Idle, false, cfg) == CaptureState::Aborted,
        spec_capture_action(CaptureState::Aborted, cfg) == CaptureAction::Done,
        spec_capture_step(CaptureState::Aborted, succeeded, cfg) == CaptureState::Aborted,
{
}

/// States in which the streaming-start command has been issued and the
/// streaming-stop command has not yet been.
pub open spec fn stream_possibly_on(state: CaptureState) -> bool {
    ||| state == CaptureState::Streaming
    ||| state matches CaptureState::Capturing { .. }
    ||| state == CaptureState::Stopping
    ||| state == CaptureState::CancelStopping
}

/// Law: the streaming-stop command is always attempted. Once streaming may
/// be on, every step stays in such a state or moves to `StreamStopped` or
/// `CancelReleasing`, any step into those two states comes from a state
/// whose pending action was exactly the streaming-stop command, and a
/// cancellation keeps the loop in the streaming region until that command is
/// issued.
pub proof fn lemma_stream_off_always_attempted(
    state: CaptureState,
    succeeded: bool,
    cfg: CaptureConfig,
)
    ensures
        stream_possibly_on(state) ==> (stream_possibly_on(spec_capture_step(state, succeeded, cfg))
            || spec_capture_step(state, succeeded, cfg) == CaptureState::StreamStopped
            || spec_capture_step(state, succeeded, cfg) == CaptureState::CancelReleasing),
        spec_capture_step(state, succeeded, cfg) == CaptureState::StreamStopped ==> (
        spec_capture_action(state, cfg) == CaptureAction::SendControl {
            code: VIDIOC_STREAMOFF,
            argument: cfg.command_kind,
        }),
        spec_capture_step(state, succeeded, cfg) == CaptureState::CancelReleasing ==> (
        spec_capture_action(state, cfg) == CaptureAction::SendControl {
            code: VIDIOC_STREAMOFF,
            argument: cfg.command_kind,
        }),
        stream_possibly_on(state) ==> stream_possibly_on(spec_capture_cancel(state)),
{
}

/// The at-most-one-active rule for capture loops on one device: a write may
/// spawn a loop only after acquiring this slot, and the slot is released
/// when the loop reaches a terminal state, so two loops never interleave
/// their streaming start/stop commands on the same source.
pub struct CaptureSlot {
    active: bool,
}

impl CaptureSlot {
    /// Whether a capture loop is currently active on the device.
    pub closed spec fn is_active(self) -> bool {
        self.active
    }

    /// A fresh slot: no loop is active.
    pub fn new() -> (s: CaptureSlot)
        ensures
            !s.is_active(),
    {
        CaptureSlot { active: false }
    }

    /// Whether a capture loop is currently active, as a runtime value.
    pub fn active(&self) -> (r: bool)
        ensures
            r == self.is_active(),
    {
        self.active
    }

    /// Try to claim the device for one capture loop: succeeds exactly when
    /// no loop is active, and in either case leaves the slot active.
    pub fn try_acquire(&mut self) -> (acquired: bool)
        ensures
            acquired == !old(self).is_active(),
            final(self).is_active(),
    {
        if self.active {
            false
        } else {
            self.active = true;
            true
        }
    }

    /// Release the device when the loop reaches a terminal state.
    pub fn release(&mut self)
        requires
            old(self).is_active(),
        ensures
            !final(self).is_active(),
    {
        self.active = false;
    }
}

} // verus!
