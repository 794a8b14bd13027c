//! The decisions of the window message loop: which messages carry raw input,
//! what a raw input notification yields, and when the loop stops and cleans up.
use vstd::prelude::*;
use crate::motion::{interpret, interpreted, MotionEvent};
use crate::payload::{decode, decoded, RECORD_LEN};

verus! {

/// Message number of the window-teardown notification.
pub const WM_DESTROY: u32 = 0x0002;

/// Message number of the raw input notification.
pub const WM_INPUT: u32 = 0x00FF;

/// What a window message means to this library.
#[derive(Clone, Copy, Debug, PartialEq, Eq, Structural)]
pub enum WindowMessage {
    /// The window is being destroyed: the loop is asked to quit.
    Teardown,
    /// A raw input notification: its payload is to be decoded and interpreted.
    Input,
    /// Anything else: left to the OS's default handling.
    Other,
}

pub open spec fn classified(msg: u32) -> WindowMessage {
    if msg == WM_DESTROY {
        WindowMessage::Teardown
    } else if msg == WM_INPUT {
        WindowMessage::Input
    } else {
        WindowMessage::Other
    }
}

pub fn classify(msg: u32) -> (r: WindowMessage)
    ensures
        r == classified(msg),
{
    if msg == WM_DESTROY {
        WindowMessage::Teardown
    } else if msg == WM_INPUT {
        WindowMessage::Input
    } else {
        WindowMessage::Other
    }
}

/// The event that a raw input notification yields, given the byte count the
/// OS reported and the buffer it filled.
pub open spec fn notification_event(status: u32, b: Seq<u8>) -> Option<MotionEvent> {
    match decoded(status, b) {
        Some(p) => interpreted(p),
        None => None,
    }
}

/// Decodes a raw input notification and interprets its payload. A failed
/// decode and a record of another device class both yield no event.
pub fn receive_motion(status: u32, buffer: &Vec<u8>) -> (r: Option<MotionEvent>)
    requires
        buffer@.len() >= RECORD_LEN,
    ensures
        r == notification_event(status, buffer@),
{
    match decode(status, buffer) {
        Some(payload) => interpret(&payload),
        None => None,
    }
}

/// What one blocking wait for the next message returned.
#[derive(Clone, Copy, Debug, PartialEq, Eq, Structural)]
pub enum PumpEvent {
    /// A message to dispatch.
    Message,
    /// The quit signal, or a failed wait: there is nothing more to dispatch.
    Quit,
}

/// Reads the OS wait's result: positive for a message, zero for the quit
/// signal, negative for an error, which also ends the loop.
pub fn pump_event(wait_result: i32) -> (r: PumpEvent)
    ensures
        r == (if wait_result > 0 { PumpEvent::Message } else { PumpEvent::Quit }),
{
    if wait_result > 0 {
        PumpEvent::Message
    } else {
        PumpEvent::Quit
    }
}

#[derive(Clone, Copy, Debug, PartialEq, Eq, Structural)]
pub enum LoopState {
    Running,
    Stopped,
}

/// What the loop's driver does after one wait.
#[derive(Clone, Copy, Debug, PartialEq, Eq, Structural)]
pub enum LoopAction {
    /// Hand the message to the window's handler.
    Dispatch,
    /// Destroy the window and unregister its class.
    Cleanup,
    /// Nothing: the loop has already stopped.
    Idle,
}

pub open spec fn step(s: LoopState, e: PumpEvent) -> (LoopState, LoopAction) {
    match s {
        LoopState::Running => match e {
            PumpEvent::Message => (LoopState::Running, LoopAction::Dispatch),
            PumpEvent::Quit => (LoopState::Stopped, LoopAction::Cleanup),
        },
        LoopState::Stopped => (LoopState::Stopped, LoopAction::Idle),
    }
}

/// The final state and the actions of a loop that starts in `s` and sees `events`.
pub open spec fn run(s: LoopState, events: Seq<PumpEvent>) -> (LoopState, Seq<LoopAction>)
    decreases events.len(),
{
    if events.len() == 0 {
        (s, Seq::empty())
    } else {
        let (next, a) = step(s, events[0]);
        let (last, rest) = run(next, events.drop_first());
        (last, seq![a] + rest)
    }
}

/// How many cleanups `actions` holds.
pub open spec fn cleanups(actions: Seq<LoopAction>) -> nat
    decreases actions.len(),
{
    if actions.len() == 0 {
        0
    } else {
        (if actions[0] == LoopAction::Cleanup { 1nat } else { 0nat }) + cleanups(
            actions.drop_first(),
        )
    }
}

/// The dispatch loop of one window.
pub struct EventLoop {
    pub state: LoopState,
}

impl EventLoop {
    /// A loop that is running, as it is once the device registration succeeded.
    pub fn new() -> (r: EventLoop)
        ensures
            r.state == LoopState::Running,
    {
        EventLoop { state: LoopState::Running }
    }

    pub fn is_running(&self) -> (r: bool)
        ensures
            r == (self.state == LoopState::Running),
    {
        match self.state {
            LoopState::Running => true,
            LoopState::Stopped => false,
        }
    }

    /// Takes in the result of one wait and says what to do: dispatch while
    /// running, clean up on the quit signal and stop, and nothing once stopped.
    pub fn advance(&mut self, e: PumpEvent) -> (r: LoopAction)
        ensures
            (final(self).state, r) == step(old(self).state, e),
    {
        match (self.state, e) {
            (LoopState::Running, PumpEvent::Message) => LoopAction::Dispatch,
            (LoopState::Running, PumpEvent::Quit) => {
                self.state = LoopState::Stopped;
                LoopAction::Cleanup
            },
            (LoopState::Stopped, _) => LoopAction::Idle,
        }
    }
}

/// A stopped loop stays stopped and cleans up no more.
pub proof fn stopped_loop_is_inert(events: Seq<PumpEvent>)
    ensures
        run(LoopState::Stopped, events).0 == LoopState::Stopped,
        cleanups(run(LoopState::Stopped, events).1) == 0,
    decreases events.len(),
{
    if events.len() > 0 {
        stopped_loop_is_inert(events.drop_first());
        let rest = run(LoopState::Stopped, events.drop_first()).1;
        assert((seq![LoopAction::Idle] + rest).drop_first() =~= rest);
    }
}

/// A running loop stops exactly when it sees the quit signal, and over any
/// run it cleans up once if the signal came and never otherwise.
pub proof fn cleanup_runs_exactly_once(events: Seq<PumpEvent>)
    ensures
        (run(LoopState::Running, events).0 == LoopState::Stopped) == events.contains(
            PumpEvent::Quit,
        ),
        cleanups(run(LoopState::Running, events).1) == (if events.contains(PumpEvent::Quit) {
            1nat
        } else {
            0nat
        }),
    decreases events.len(),
{
    if events.len() > 0 {
        let tail = events.drop_first();
        let (next, a) = step(LoopState::Running, events[0]);
        let rest = run(next, tail).1;
        assert((seq![a] + rest).drop_first() =~= rest);
        assert((seq![a] + rest)[0] == a);
        if events[0] == PumpEvent::Quit {
            stopped_loop_is_inert(tail);
            assert(events.contains(PumpEvent::Quit)) by {
                assert(events[0] == PumpEvent::Quit);
            }
        } else {
            cleanup_runs_exactly_once(tail);
            if tail.contains(PumpEvent::Quit) {
                let i = choose|i: int| 0 <= i < tail.len() && tail[i] == PumpEvent::Quit;
                assert(events[i + 1] == PumpEvent::Quit);
            }
            if events.contains(PumpEvent::Quit) {
                let i = choose|i: int| 0 <= i < events.len() && events[i] == PumpEvent::Quit;
                assert(i > 0);
                assert(tail[i - 1] == PumpEvent::Quit);
            }
        }
    }
}

} // verus!
