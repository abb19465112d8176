//! Detecting that the main thread has stopped servicing its task queue.
//!
//! A bounded channel of unit tokens runs from a background task, the
//! watchdog, to a task on the main thread that does nothing but take the
//! tokens out. Once per interval the watchdog tries to put one token in. If
//! there is no room, the main thread has not run its queue for as long as it
//! takes to fill the channel: it is signalled, so that it records where it
//! stands, and the watchdog retires.

use vstd::prelude::*;
use futures::channel::mpsc::{Receiver, Sender};
use crate::platform::Platform;
use crate::release_channel::ReleaseChannel;
use crate::snapshot::{FrameDescriptor, SharedBacktraceBuffer};

verus! {

#[verifier::external_type_specification]
#[verifier::external_body]
#[verifier::reject_recursive_types(T)]
pub struct ExSender<T>(futures::channel::mpsc::Sender<T>);

#[verifier::external_type_specification]
#[verifier::external_body]
#[verifier::reject_recursive_types(T)]
pub struct ExReceiver<T>(futures::channel::mpsc::Receiver<T>);

/// The number of tokens that the heartbeat channel holds. A main thread
/// that takes none out is signalled at the tick after the one that fills
/// the channel.
pub const HEARTBEAT_CAPACITY: usize = 3;

/// The time between two attempts of the watchdog, in seconds.
pub const WATCHDOG_INTERVAL_SECS: u64 = 1;

/// The number of frames kept of a stalled thread's stack.
pub const SNAPSHOT_CAPACITY: usize = 100;

/// How an attempt to put a token into the heartbeat channel ended.
#[derive(Clone, Copy, Debug, PartialEq, Eq, Structural)]
pub enum PushOutcome {
    /// The token is in the channel.
    Accepted,
    /// The channel had no room.
    Full,
    /// The receiving end is gone.
    Disconnected,
}

#[derive(Clone, Copy, Debug, PartialEq, Eq, Structural)]
pub enum WatchdogState {
    Watching,
    /// The watchdog has retired. It does not start again.
    Stopped,
}

/// What the watchdog asks of the task that drives it.
#[derive(Clone, Copy, Debug, PartialEq, Eq, Structural)]
pub enum WatchdogAction {
    /// Sleep for one interval and tick again.
    Wait,
    /// Signal the main thread, then end the loop.
    Signal,
    /// End the loop.
    Stop,
}

/// The watchdog's next state and what it asks for, given how its attempt to
/// put a token in ended. A retired watchdog makes no attempt and asks only
/// to stop.
pub open spec fn step_spec(state: WatchdogState, outcome: PushOutcome) -> (
    WatchdogState,
    WatchdogAction,
) {
    match state {
        WatchdogState::Stopped => (WatchdogState::Stopped, WatchdogAction::Stop),
        WatchdogState::Watching => match outcome {
            PushOutcome::Accepted => (WatchdogState::Watching, WatchdogAction::Wait),
            PushOutcome::Full => (WatchdogState::Stopped, WatchdogAction::Signal),
            PushOutcome::Disconnected => (WatchdogState::Stopped, WatchdogAction::Stop),
        },
    }
}

/// One step of the watchdog.
pub fn step(state: WatchdogState, outcome: PushOutcome) -> (next: (WatchdogState, WatchdogAction))
    ensures
        next == step_spec(state, outcome),
{
    match state {
        WatchdogState::Stopped => (WatchdogState::Stopped, WatchdogAction::Stop),
        WatchdogState::Watching => match outcome {
            PushOutcome::Accepted => (WatchdogState::Watching, WatchdogAction::Wait),
            PushOutcome::Full => (WatchdogState::Stopped, WatchdogAction::Signal),
            PushOutcome::Disconnected => (WatchdogState::Stopped, WatchdogAction::Stop),
        },
    }
}

/// How an attempt ends on a channel that holds `queued` tokens, has room for
/// `capacity`, and is connected to a receiver that takes nothing out.
pub open spec fn undrained_push(queued: nat, capacity: nat) -> PushOutcome {
    if queued < capacity {
        PushOutcome::Accepted
    } else {
        PushOutcome::Full
    }
}

/// Where a watchdog stands after some ticks: its state, the tokens in the
/// channel, and the signals it has asked for so far.
pub struct Run {
    pub state: WatchdogState,
    pub queued: nat,
    pub signals: nat,
}

/// Where a fresh watchdog stands after `ticks` ticks on an empty channel of
/// the given capacity whose receiver takes nothing out.
pub open spec fn undrained_run(capacity: nat, ticks: nat) -> Run
    decreases ticks,
{
    if ticks == 0 {
        Run { state: WatchdogState::Watching, queued: 0, signals: 0 }
    } else {
        let before = undrained_run(capacity, (ticks - 1) as nat);
        let outcome = undrained_push(before.queued, capacity);
        let (state, action) = step_spec(before.state, outcome);
        Run {
            state,
            queued: if before.state == WatchdogState::Watching && outcome == PushOutcome::Accepted {
                before.queued + 1
            } else {
                before.queued
            },
            signals: if action == WatchdogAction::Signal {
                before.signals + 1
            } else {
                before.signals
            },
        }
    }
}

/// If the main thread never takes a token out, the watchdog fills the
/// channel in as many ticks as the channel has room for, asks for the signal
/// at the tick after that, and never asks again.
pub proof fn lemma_stall_is_signalled_once(capacity: nat, ticks: nat)
    ensures
        ticks <= capacity ==> undrained_run(capacity, ticks) == (Run {
            state: WatchdogState::Watching,
            queued: ticks,
            signals: 0,
        }),
        ticks > capacity ==> undrained_run(capacity, ticks) == (Run {
            state: WatchdogState::Stopped,
            queued: capacity,
            signals: 1,
        }),
    decreases ticks,
{
    if ticks > 0 {
        lemma_stall_is_signalled_once(capacity, (ticks - 1) as nat);
    }
}

/// The watchdog asks for the signal once at most, whatever the channel does:
/// after the step that asks for it, and after any step that ends the watch,
/// every further step asks only to stop.
pub proof fn lemma_retired_stays_retired(state: WatchdogState, first: PushOutcome, second: PushOutcome)
    ensures
        step_spec(state, first).1 != WatchdogAction::Wait ==> step_spec(
            step_spec(state, first).0,
            second,
        ) == (WatchdogState::Stopped, WatchdogAction::Stop),
{
}

/// The buffer that the channel behind a sending end was made with.
pub uninterp spec fn channel_buffer(heartbeat: Sender<()>) -> nat;

/// Whether a sending end and a receiving end belong to one channel: whether
/// what the one puts in is what the other takes out.
pub uninterp spec fn same_channel(heartbeat: Sender<()>, heartbeats: Receiver<()>) -> bool;

/// Calls `futures::channel::mpsc::channel`, which makes a bounded channel
/// with the given buffer and hands out its two ends. It gives up on a
/// buffer of a quarter of the address space or more.
#[verifier::external_body]
fn open_channel(buffer: usize) -> (ends: (Sender<()>, Receiver<()>))
    requires
        buffer < usize::MAX / 4,
    ensures
        channel_buffer(ends.0) == buffer,
        same_channel(ends.0, ends.1),
{
    futures::channel::mpsc::channel(buffer)
}

/// Calls `Sender::try_send` with a unit token and tells the three ways it
/// can end apart, the two failures by `SendError::is_full`. Whether there is
/// room depends on how fast the other end takes tokens out, so nothing is
/// claimed of the outcome. The sending end stays on the channel it was made
/// for, and the channel keeps the buffer it was made with.
#[verifier::external_body]
fn try_push(heartbeat: &mut Sender<()>) -> (outcome: PushOutcome)
    ensures
        channel_buffer(*final(heartbeat)) == channel_buffer(*old(heartbeat)),
        forall|heartbeats: Receiver<()>|
            same_channel(*final(heartbeat), heartbeats) == #[trigger] same_channel(
                *old(heartbeat),
                heartbeats,
            ),
{
    match heartbeat.try_send(()) {
        Ok(()) => PushOutcome::Accepted,
        Err(error) => if error.into_send_error().is_full() {
            PushOutcome::Full
        } else {
            PushOutcome::Disconnected
        },
    }
}

/// The watchdog: its state and the sending end of the heartbeat channel.
pub struct Watchdog {
    state: WatchdogState,
    heartbeat: Sender<()>,
}

impl Watchdog {
    pub closed spec fn state_spec(&self) -> WatchdogState {
        self.state
    }

    /// The buffer of the channel that the watchdog puts its tokens into.
    pub closed spec fn buffer(&self) -> nat {
        channel_buffer(self.heartbeat)
    }

    /// The number of tokens that the channel takes in while nobody takes any
    /// out: its buffer, and the slot of its own that a bounded channel
    /// grants each sender. The watchdog is the only sender.
    pub open spec fn capacity(&self) -> nat {
        self.buffer() + 1
    }

    /// Whether `heartbeats` is the receiving end of the channel that the
    /// watchdog puts its tokens into.
    pub closed spec fn feeds(&self, heartbeats: Receiver<()>) -> bool {
        same_channel(self.heartbeat, heartbeats)
    }

    #[verifier::when_used_as_spec(state_spec)]
    pub fn state(&self) -> (state: WatchdogState)
        ensures
            state == self.state_spec(),
    {
        self.state
    }

    /// A watchdog that watches the channel behind `heartbeat`.
    pub fn new(heartbeat: Sender<()>) -> (watchdog: Watchdog)
        ensures
            watchdog.state_spec() == WatchdogState::Watching,
            watchdog.buffer() == channel_buffer(heartbeat),
            forall|heartbeats: Receiver<()>|
                #[trigger] watchdog.feeds(heartbeats) == same_channel(heartbeat, heartbeats),
    {
        Watchdog { state: WatchdogState::Watching, heartbeat }
    }

    /// What the driving task does once an interval has passed. A watching
    /// watchdog tries to put a token into the channel and takes the step
    /// that the outcome calls for; a retired one leaves the channel alone.
    pub fn tick(&mut self) -> (action: WatchdogAction)
        ensures
            final(self).buffer() == old(self).buffer(),
            forall|heartbeats: Receiver<()>|
                final(self).feeds(heartbeats) == #[trigger] old(self).feeds(heartbeats),
            old(self).state_spec() == WatchdogState::Stopped ==> action == WatchdogAction::Stop
                && final(self).state_spec() == WatchdogState::Stopped,
            exists|outcome: PushOutcome|
                (final(self).state_spec(), action) == #[trigger] step_spec(
                    old(self).state_spec(),
                    outcome,
                ),
    {
        match self.state {
            WatchdogState::Stopped => {
                assert((self.state_spec(), WatchdogAction::Stop) == step_spec(
                    old(self).state_spec(),
                    PushOutcome::Full,
                ));
                WatchdogAction::Stop
            },
            WatchdogState::Watching => {
                let outcome = try_push(&mut self.heartbeat);
                let (state, action) = step(self.state, outcome);
                self.state = state;
                assert((self.state_spec(), action) == step_spec(old(self).state_spec(), outcome));
                action
            },
        }
    }
}

/// What the program needs to watch its main thread: the watchdog for a
/// background task, the receiving end of the heartbeat channel for a task
/// on the main thread, and the buffer for the signal handler.
pub struct HangMonitor {
    pub watchdog: Watchdog,
    pub heartbeats: Receiver<()>,
    pub snapshot: SharedBacktraceBuffer,
}

impl HangMonitor {
    /// A monitor as it is handed out: the watchdog watches, its channel
    /// holds `HEARTBEAT_CAPACITY` tokens and ends in `heartbeats`, and the
    /// buffer is empty with room for `SNAPSHOT_CAPACITY` frames.
    pub open spec fn fresh(&self) -> bool {
        &&& self.watchdog.state_spec() == WatchdogState::Watching
        &&& self.watchdog.capacity() == HEARTBEAT_CAPACITY
        &&& self.watchdog.feeds(self.heartbeats)
        &&& self.snapshot.wf()
        &&& self.snapshot@ == Seq::<FrameDescriptor>::empty()
        &&& self.snapshot.capacity() == SNAPSHOT_CAPACITY
    }
}

/// Sets up the watch over the main thread, on the channels that are watched.
/// On the stable channel nothing is set up.
pub fn monitor_main_thread_hangs(channel: ReleaseChannel) -> (monitor: Option<HangMonitor>)
    ensures
        monitor is Some <==> channel.watches_for_hangs_spec(),
        monitor is Some ==> monitor->0.fresh(),
{
    if !channel.watches_for_hangs() {
        return None;
    }
    // The channel grants its one sender a slot on top of the buffer.
    let (heartbeat, heartbeats) = open_channel(HEARTBEAT_CAPACITY - 1);
    Some(
        HangMonitor {
            watchdog: Watchdog::new(heartbeat),
            heartbeats,
            snapshot: SharedBacktraceBuffer::with_capacity(SNAPSHOT_CAPACITY),
        },
    )
}

/// Starts what this crate has to start in the background. That is the watch
/// over the main thread, and only where the platform can signal a thread of
/// its choice: on macOS.
pub fn init(platform: Platform, channel: ReleaseChannel) -> (monitor: Option<HangMonitor>)
    ensures
        monitor is Some <==> platform == Platform::MacOs && channel.watches_for_hangs_spec(),
        monitor is Some ==> monitor->0.fresh(),
{
    match platform {
        Platform::MacOs => monitor_main_thread_hangs(channel),
        _ => None,
    }
}

} // verus!
