//! The event loops: which of them run.
//!
//! Each loop is a task of the program around the library. The library keeps
//! the one fact that its decisions need: whether the loop runs.

use vstd::prelude::*;

verus! {

/// How many notifications wait in a channel for a slow receiver before the
/// oldest is dropped.
pub const CHANNEL_CAPACITY: usize = 64;

/// Who set a change going.
#[derive(Debug, Clone, Copy, PartialEq, Eq, Structural)]
pub enum Initiator {
    NetworkChoose,
}

/// The event loops of the supervisor.
#[derive(Debug, Clone, Copy, PartialEq, Eq, Structural)]
pub enum Loop {
    /// Receives the notifications of the service and publishes the events.
    Demux,
    /// Reacts to adapters that arrive and leave.
    InterfaceAutopilot,
    /// Reacts to fresh lists of the networks in range.
    NetworkAutopilot,
    /// Pings, and moves on to the next network when pings fail.
    Pinger,
    /// Scans at intervals while no configured network is in range.
    Waiter,
}

/// Whether a loop runs.
#[derive(Debug, Clone, Copy, PartialEq, Eq, Structural)]
pub enum LoopState {
    Stopped,
    Running,
}

/// Which loops run. Each loop runs at most once.
#[derive(Debug, Clone, Copy, PartialEq, Eq, Structural)]
pub struct Loops {
    pub demux: LoopState,
    pub interface_autopilot: LoopState,
    pub network_autopilot: LoopState,
    pub pinger: LoopState,
    pub waiter: LoopState,
}

impl Loops {
    /// The state of the loop `which`.
    pub open spec fn of(self, which: Loop) -> LoopState {
        match which {
            Loop::Demux => self.demux,
            Loop::InterfaceAutopilot => self.interface_autopilot,
            Loop::NetworkAutopilot => self.network_autopilot,
            Loop::Pinger => self.pinger,
            Loop::Waiter => self.waiter,
        }
    }

    /// The same loops, but with the loop `which` in `state`.
    pub open spec fn with(self, which: Loop, state: LoopState) -> Loops {
        match which {
            Loop::Demux => Loops { demux: state, ..self },
            Loop::InterfaceAutopilot => Loops { interface_autopilot: state, ..self },
            Loop::NetworkAutopilot => Loops { network_autopilot: state, ..self },
            Loop::Pinger => Loops { pinger: state, ..self },
            Loop::Waiter => Loops { waiter: state, ..self },
        }
    }

    /// The loop `which` runs.
    pub open spec fn running(self, which: Loop) -> bool {
        self.of(which) == LoopState::Running
    }

    /// No loop runs.
    pub open spec fn none() -> Loops {
        Loops {
            demux: LoopState::Stopped,
            interface_autopilot: LoopState::Stopped,
            network_autopilot: LoopState::Stopped,
            pinger: LoopState::Stopped,
            waiter: LoopState::Stopped,
        }
    }

    /// Tells whether the loop `which` runs.
    pub fn works(&self, which: Loop) -> (yes: bool)
        ensures
            yes == self.running(which),
    {
        let state = match which {
            Loop::Demux => self.demux,
            Loop::InterfaceAutopilot => self.interface_autopilot,
            Loop::NetworkAutopilot => self.network_autopilot,
            Loop::Pinger => self.pinger,
            Loop::Waiter => self.waiter,
        };
        match state {
            LoopState::Running => true,
            LoopState::Stopped => false,
        }
    }

    fn set(&mut self, which: Loop, state: LoopState)
        ensures
            *final(self) == old(self).with(which, state),
    {
        match which {
            Loop::Demux => {
                self.demux = state;
            },
            Loop::InterfaceAutopilot => {
                self.interface_autopilot = state;
            },
            Loop::NetworkAutopilot => {
                self.network_autopilot = state;
            },
            Loop::Pinger => {
                self.pinger = state;
            },
            Loop::Waiter => {
                self.waiter = state;
            },
        }
    }

    /// Notes that the loop `which` was started. A loop that runs is not started again.
    pub fn spawn(&mut self, which: Loop)
        requires
            !old(self).running(which),
        ensures
            *final(self) == old(self).with(which, LoopState::Running),
    {
        self.set(which, LoopState::Running);
    }

    /// Notes that the loop `which` was stopped, and tells whether it ran.
    pub fn close(&mut self, which: Loop) -> (ran: bool)
        ensures
            ran == old(self).running(which),
            *final(self) == old(self).with(which, LoopState::Stopped),
    {
        let ran = self.works(which);
        self.set(which, LoopState::Stopped);
        ran
    }
}

impl Default for Loops {
    fn default() -> (loops: Self)
        ensures
            loops == Loops::none(),
    {
        Loops {
            demux: LoopState::Stopped,
            interface_autopilot: LoopState::Stopped,
            network_autopilot: LoopState::Stopped,
            pinger: LoopState::Stopped,
            waiter: LoopState::Stopped,
        }
    }
}

} // verus!
