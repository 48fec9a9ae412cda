//! Streaming supervisor state machine.
//!
//! Auto reconnect is core behaviour, not a toggle. While the user has not pressed
//! Stop, recoverable failures always route back through `Reconnecting` rather
//! than terminating.

use std::time::Duration;

use vstd::arithmetic::power2::*;
use vstd::prelude::*;

verus! {

#[derive(Debug, Clone, Copy, PartialEq, Eq, Structural)]
pub enum StreamState {
    Idle,
    Starting,
    Streaming,
    Degraded,
    Reconnecting,
    Failed,
}

#[derive(Debug, Clone, Copy, PartialEq, Eq, Structural)]
pub enum StreamEvent {
    /// User pressed Start (or operator sent start command).
    Start,
    /// Pipeline came up and frames/audio are flowing.
    Up,
    /// Recoverable problem while live (e.g. dropped-frame spike). Stay live.
    Degrade,
    /// Recoverable problem cleared.
    Recover,
    /// Recoverable failure (process exit, network loss, source vanished).
    RecoverableError,
    /// Non-recoverable failure (bad config, no encoder). Stop trying.
    FatalError,
    /// A scheduled retry attempt is being made.
    RetryTick,
    /// User pressed Stop (or operator sent stop command).
    Stop,
}

/// The first retry delay.
pub const BASE_MS: u64 = 500;

/// The longest retry delay.
pub const CAP_MS: u64 = 10_000;

/// The span of time of so many milliseconds.
pub uninterp spec fn span_of_millis(millis: u64) -> Duration;

/// `std::time::Duration::from_millis`: the span of time of `millis` milliseconds,
/// which depends on `millis` alone.
pub assume_specification[ std::time::Duration::from_millis ](millis: u64) -> (r: Duration)
    ensures
        r == span_of_millis(millis),
;

/// The delay in milliseconds before a (0-based) retry: it doubles from attempt to
/// attempt up to a cap.
pub open spec fn delay_ms(attempt: nat) -> nat {
    if BASE_MS * pow2(attempt) < CAP_MS {
        BASE_MS as nat * pow2(attempt)
    } else {
        CAP_MS as nat
    }
}

/// Exponential backoff with a cap, in milliseconds. Attempt is 0-based.
pub fn backoff_ms(attempt: u32) -> (r: u64)
    ensures
        r == delay_ms(attempt as nat),
{
    proof {
        doubling_to_the_cap(attempt as nat);
    }
    match attempt {
        0 => BASE_MS,
        1 => 2 * BASE_MS,
        2 => 4 * BASE_MS,
        3 => 8 * BASE_MS,
        4 => 16 * BASE_MS,
        _ => CAP_MS,
    }
}

/// Exponential backoff with a cap. Attempt is 0-based.
pub fn backoff_delay(attempt: u32) -> (r: Duration)
    ensures
        r == span_of_millis(delay_ms(attempt as nat) as u64),
{
    Duration::from_millis(backoff_ms(attempt))
}

/// The state that follows a state on an event.
pub open spec fn successor(state: StreamState, event: StreamEvent) -> StreamState {
    match event {
        StreamEvent::Stop => StreamState::Idle,
        StreamEvent::Start => match state {
            StreamState::Idle | StreamState::Failed => StreamState::Starting,
            _ => state,
        },
        StreamEvent::Up => match state {
            StreamState::Starting | StreamState::Reconnecting => StreamState::Streaming,
            _ => state,
        },
        StreamEvent::Degrade => match state {
            StreamState::Streaming => StreamState::Degraded,
            _ => state,
        },
        StreamEvent::Recover => match state {
            StreamState::Degraded => StreamState::Streaming,
            _ => state,
        },
        StreamEvent::RecoverableError => if is_running(state) {
            StreamState::Reconnecting
        } else {
            state
        },
        StreamEvent::FatalError => if is_running(state) {
            StreamState::Failed
        } else {
            state
        },
        StreamEvent::RetryTick => state,
    }
}

/// The supervisor is at work in this state.
pub open spec fn is_running(state: StreamState) -> bool {
    state != StreamState::Idle && state != StreamState::Failed
}

/// Pure transition function. Returns the next state for a (state, event) pair.
pub fn next_state(state: StreamState, event: StreamEvent) -> (r: StreamState)
    ensures
        r == successor(state, event),
{
    // Stop always wins and returns to Idle.
    if event == StreamEvent::Stop {
        return StreamState::Idle;
    }
    match (state, event) {
        // From Idle / Failed, only Start does anything meaningful.
        (StreamState::Idle, StreamEvent::Start) => StreamState::Starting,
        (StreamState::Failed, StreamEvent::Start) => StreamState::Starting,
        // Bring-up.
        (StreamState::Starting, StreamEvent::Up) => StreamState::Streaming,
        (StreamState::Starting, StreamEvent::RecoverableError) => StreamState::Reconnecting,
        (StreamState::Starting, StreamEvent::FatalError) => StreamState::Failed,
        // Live.
        (StreamState::Streaming, StreamEvent::Degrade) => StreamState::Degraded,
        (StreamState::Streaming, StreamEvent::RecoverableError) => StreamState::Reconnecting,
        (StreamState::Streaming, StreamEvent::FatalError) => StreamState::Failed,
        // Degraded (still live, quality impaired).
        (StreamState::Degraded, StreamEvent::Recover) => StreamState::Streaming,
        (StreamState::Degraded, StreamEvent::RecoverableError) => StreamState::Reconnecting,
        (StreamState::Degraded, StreamEvent::FatalError) => StreamState::Failed,
        // Reconnecting loop.
        (StreamState::Reconnecting, StreamEvent::RetryTick) => StreamState::Reconnecting,
        (StreamState::Reconnecting, StreamEvent::Up) => StreamState::Streaming,
        (StreamState::Reconnecting, StreamEvent::RecoverableError) => StreamState::Reconnecting,
        (StreamState::Reconnecting, StreamEvent::FatalError) => StreamState::Failed,
        // Anything else is a no-op.
        (other, _) => other,
    }
}

/// Tracks state + retry attempts for the supervisor loop.
#[derive(Debug, Clone, Copy)]
pub struct StreamMachine {
    pub state: StreamState,
    pub attempt: u32,
}

impl Default for StreamMachine {
    fn default() -> (r: Self)
        ensures
            r == StreamMachine::initial(),
    {
        StreamMachine { state: StreamState::Idle, attempt: 0 }
    }
}

impl StreamMachine {
    /// A machine that has seen no event.
    pub open spec fn initial() -> StreamMachine {
        StreamMachine { state: StreamState::Idle, attempt: 0 }
    }

    /// The machine after an event: a retry is counted, and the count starts anew
    /// on Start, on Stop and whenever the stream is up.
    pub open spec fn after(self, event: StreamEvent) -> StreamMachine {
        let state = successor(self.state, event);
        StreamMachine {
            state,
            attempt: if state == StreamState::Streaming || event == StreamEvent::Stop || event
                == StreamEvent::Start {
                0
            } else if event == StreamEvent::RetryTick && self.attempt < u32::MAX {
                (self.attempt + 1) as u32
            } else {
                self.attempt
            },
        }
    }

    /// The machine after a run of events.
    pub open spec fn after_all(self, events: Seq<StreamEvent>) -> StreamMachine
        decreases events.len(),
    {
        if events.len() == 0 {
            self
        } else {
            self.after_all(events.drop_last()).after(events.last())
        }
    }

    /// Apply an event, returning the new state. Resets the retry counter when we
    /// reach a healthy `Streaming` state, and increments it on each retry tick.
    pub fn apply(&mut self, event: StreamEvent) -> (r: StreamState)
        ensures
            *final(self) == old(self).after(event),
            r == final(self).state,
    {
        let next = next_state(self.state, event);
        match event {
            StreamEvent::RetryTick => {
                self.attempt = self.attempt.saturating_add(1);
            },
            StreamEvent::Stop | StreamEvent::Start => {
                self.attempt = 0;
            },
            _ => {},
        }
        if next == StreamState::Streaming {
            self.attempt = 0;
        }
        self.state = next;
        next
    }

    pub fn current_backoff(&self) -> (r: Duration)
        ensures
            r == span_of_millis(delay_ms(self.attempt as nat) as u64),
    {
        backoff_delay(self.attempt)
    }
}

proof fn doubling_to_the_cap(attempt: nat)
    ensures
        attempt == 0 ==> pow2(attempt) == 1,
        attempt == 1 ==> pow2(attempt) == 2,
        attempt == 2 ==> pow2(attempt) == 4,
        attempt == 3 ==> pow2(attempt) == 8,
        attempt == 4 ==> pow2(attempt) == 16,
        attempt >= 5 ==> pow2(attempt) >= 32,
{
    lemma2_to64();
    if attempt > 5 {
        lemma_pow2_strictly_increases(5, attempt);
    }
}

/// Retry delays start at the base, never shrink from one attempt to a later one,
/// and never exceed the cap.
pub proof fn backoff_grows_to_a_cap(earlier: nat, later: nat)
    requires
        earlier <= later,
    ensures
        delay_ms(0) == BASE_MS,
        BASE_MS <= delay_ms(earlier) <= delay_ms(later) <= CAP_MS,
        later >= 5 ==> delay_ms(later) == CAP_MS,
{
    doubling_to_the_cap(0);
    doubling_to_the_cap(earlier);
    doubling_to_the_cap(later);
}

/// Stop returns to Idle from every state.
pub proof fn stop_always_wins(state: StreamState)
    ensures
        successor(state, StreamEvent::Stop) == StreamState::Idle,
{
}

/// Nothing but a fatal error leads to Failed.
pub proof fn only_fatal_errors_fail(state: StreamState, event: StreamEvent)
    requires
        state != StreamState::Failed,
        successor(state, event) == StreamState::Failed,
    ensures
        event == StreamEvent::FatalError,
{
}

/// A recoverable error sends a running supervisor to Reconnecting.
pub proof fn recoverable_errors_reconnect(state: StreamState)
    requires
        is_running(state),
    ensures
        successor(state, StreamEvent::RecoverableError) == StreamState::Reconnecting,
{
}

/// Only Start leaves Idle or Failed (Failed is also left by Stop).
pub proof fn only_start_sets_off(state: StreamState, event: StreamEvent)
    requires
        !is_running(state),
        is_running(successor(state, event)),
    ensures
        event == StreamEvent::Start,
        successor(state, event) == StreamState::Starting,
{
}

/// Once started, the supervisor keeps going through any run of events that holds
/// neither Stop nor a fatal error.
pub proof fn keeps_running_until_stopped(machine: StreamMachine, events: Seq<StreamEvent>)
    requires
        is_running(machine.state),
        forall|i: int|
            0 <= i < events.len() ==> #[trigger] events[i] != StreamEvent::Stop && events[i]
                != StreamEvent::FatalError,
    ensures
        is_running(machine.after_all(events).state),
    decreases events.len(),
{
    if events.len() > 0 {
        let before = events.drop_last();
        assert(forall|i: int| 0 <= i < before.len() ==> #[trigger] before[i] == events[i]);
        keeps_running_until_stopped(machine, before);
        assert(events.last() == events[events.len() - 1]);
    }
}

/// Whatever has happened, a stream that is up has no retries counted against it.
pub proof fn streaming_clears_the_retries(events: Seq<StreamEvent>)
    ensures
        StreamMachine::initial().after_all(events).state == StreamState::Streaming
            ==> StreamMachine::initial().after_all(events).attempt == 0,
{
}

/// Each retry waits twice as long as the one before, from half a second up to ten
/// seconds.
pub proof fn backoff_doubles(attempt: nat)
    ensures
        500 <= delay_ms(attempt) <= 10_000,
        attempt == 0 ==> delay_ms(attempt) == 500,
        2 * delay_ms(attempt) <= 10_000 ==> delay_ms(attempt + 1) == 2 * delay_ms(attempt),
        2 * delay_ms(attempt) > 10_000 ==> delay_ms(attempt + 1) == 10_000,
{
    doubling_to_the_cap(0);
    doubling_to_the_cap(attempt);
    doubling_to_the_cap(attempt + 1);
}

/// A stream that is set off and comes up is live, from rest, after a failure and in
/// a reconnect; it is live until it degrades, and a degraded one that recovers is as
/// it was.
pub proof fn streams_come_up_and_recover(state: StreamState)
    ensures
        state == StreamState::Idle || state == StreamState::Failed ==> successor(
            successor(state, StreamEvent::Start),
            StreamEvent::Up,
        ) == StreamState::Streaming,
        state != StreamState::Idle && state != StreamState::Failed ==> successor(successor(state, StreamEvent::RecoverableError), StreamEvent::Up)
            == StreamState::Streaming,
        state == StreamState::Streaming ==> successor(state, StreamEvent::Degrade) != state && successor(
            successor(state, StreamEvent::Degrade),
            StreamEvent::Recover,
        ) == state,
        state != StreamState::Idle && state != StreamState::Failed ==> successor(state, StreamEvent::FatalError)
            == StreamState::Failed && successor(state, StreamEvent::RecoverableError) == StreamState::Reconnecting,
        successor(successor(state, StreamEvent::Stop), StreamEvent::Start) == StreamState::Starting,
{
}

/// An event that means nothing in a state leaves it: coming up a stream that is not
/// being brought up, degrading one that is not live, recovering one that is not
/// degraded, starting one that runs, and any failure of one that does not.
pub proof fn other_events_change_nothing(state: StreamState, event: StreamEvent)
    requires
        match event {
            StreamEvent::Stop => state == StreamState::Idle,
            StreamEvent::Start => state != StreamState::Idle && state != StreamState::Failed,
            StreamEvent::Up => state != StreamState::Starting && state != StreamState::Reconnecting,
            StreamEvent::Degrade => state != StreamState::Streaming,
            StreamEvent::Recover => state != StreamState::Degraded,
            StreamEvent::RecoverableError | StreamEvent::FatalError => state == StreamState::Idle || state
                == StreamState::Failed,
            StreamEvent::RetryTick => true,
        },
    ensures
        successor(state, event) == state,
{
}

/// An event that comes twice in a row moves the stream as the first one did.
pub proof fn repeated_events_change_nothing(state: StreamState, event: StreamEvent)
    ensures
        successor(successor(state, event), event) == successor(state, event),
{
}

/// Only a retry is counted, and one at a time; only Start, Stop and a live stream
/// clear the count.
pub proof fn retries_are_counted(machine: StreamMachine, event: StreamEvent)
    ensures
        ({
            let next = machine.after(event);
            &&& next.state == successor(machine.state, event)
            &&& next.attempt == 0 || next.attempt == machine.attempt || next.attempt == machine.attempt + 1
            &&& next.attempt == machine.attempt + 1 && machine.attempt > 0 ==> event == StreamEvent::RetryTick
            &&& event == StreamEvent::RetryTick && machine.state != StreamState::Streaming && machine.attempt
                < u32::MAX ==> next.attempt == machine.attempt + 1
            &&& event == StreamEvent::Start || event == StreamEvent::Stop || next.state == StreamState::Streaming
                ==> next.attempt == 0
            &&& next.attempt < machine.attempt ==> event == StreamEvent::Start || event == StreamEvent::Stop
                || next.state == StreamState::Streaming
            &&& event == StreamEvent::RecoverableError ==> next.attempt == machine.attempt
        }),
{
}

} // verus!
