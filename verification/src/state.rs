//! Whether the host counts as alive, and if not, why.

pub mod error;
pub mod reason;

pub use error::Error;
pub use reason::DeadReason;

use vstd::prelude::*;

verus! {

/// The liveness of the host.
#[derive(Debug, Clone, Copy, PartialEq, Eq, Structural)]
pub enum State {
    /// Not on a usable network, for the reason given.
    Dead(DeadReason),
    /// On a network that answers.
    Alive,
}

/// The two lines shown to the user when the host goes dead.
#[derive(Debug, Clone, Copy, PartialEq, Eq)]
pub struct Diagnostic {
    /// What happened.
    pub what: &'static str,
    /// What the user can do about it.
    pub fix: &'static str,
}

/// The line that says what happened, for each reason.
pub open spec fn what_text(reason: DeadReason) -> Seq<char> {
    match reason {
        DeadReason::Uninitialized => "! DEAD: uninitialized"@,
        DeadReason::NoInterface => "! DEAD: no available wireless interfaces"@,
        DeadReason::NoNetwork => "! DEAD: could not connect to any available network"@,
    }
}

/// The line that says what to do, for each reason.
pub open spec fn fix_text(reason: DeadReason) -> Seq<char> {
    match reason {
        DeadReason::Uninitialized => "? FIX: check that the app's variables are initialized correctly"@,
        DeadReason::NoInterface => "? FIX: connect at least one wireless interface (USB, PCIe, virtual, etc.)"@,
        DeadReason::NoNetwork => "? FIX: check that at least one network defined in config is reachable"@,
    }
}

/// The state from which the host may go dead: alive, or not yet started.
pub open spec fn may_die(state: State) -> bool {
    state == State::Alive || state == State::Dead(DeadReason::Uninitialized)
}

/// The one holder of the host's liveness. It starts dead, as not yet started,
/// and changes only through `dead` and `alive`.
#[derive(Debug, PartialEq, Eq)]
pub struct Operator {
    state: State,
}

impl View for Operator {
    type V = State;

    closed spec fn view(&self) -> State {
        self.state
    }
}

impl Operator {
    /// The current state.
    pub fn get(&self) -> (state: &State)
        ensures
            *state == self@,
    {
        &self.state
    }

    /// Why the host is dead, or `None` when it is alive.
    pub fn get_dead_reason(&self) -> (reason: Option<&DeadReason>)
        ensures
            match self@ {
                State::Alive => reason is None,
                State::Dead(why) => reason == Some(&why),
            },
    {
        match &self.state {
            State::Alive => None,
            State::Dead(reason) => Some(reason),
        }
    }

    /// Tells whether the host may go dead from here.
    pub fn can_die(&self) -> (yes: bool)
        ensures
            yes == may_die(self@),
    {
        match &self.state {
            State::Alive => true,
            State::Dead(reason) => match reason {
                DeadReason::Uninitialized => true,
                _ => false,
            },
        }
    }

    /// The lines to show for the current state, or `None` when the host is alive.
    pub fn message(&self) -> (lines: Option<Diagnostic>)
        ensures
            match self@ {
                State::Alive => lines is None,
                State::Dead(why) => lines matches Some(d) && d.what@ == what_text(why) && d.fix@
                    == fix_text(why),
            },
    {
        match &self.state {
            State::Alive => None,
            State::Dead(reason) => Some(
                match reason {
                    DeadReason::Uninitialized => Diagnostic {
                        what: "! DEAD: uninitialized",
                        fix: "? FIX: check that the app's variables are initialized correctly",
                    },
                    DeadReason::NoInterface => Diagnostic {
                        what: "! DEAD: no available wireless interfaces",
                        fix: "? FIX: connect at least one wireless interface (USB, PCIe, virtual, etc.)",
                    },
                    DeadReason::NoNetwork => Diagnostic {
                        what: "! DEAD: could not connect to any available network",
                        fix: "? FIX: check that at least one network defined in config is reachable",
                    },
                },
            ),
        }
    }

    /// Declares the host dead for `reason`, and hands back the lines to show.
    ///
    /// Refused with `AlreadyDead`, and nothing changes, unless the host is
    /// alive or not yet started.
    pub fn dead(&mut self, reason: DeadReason) -> (shown: Result<Diagnostic, Error>)
        ensures
            may_die(old(self)@) ==> final(self)@ == State::Dead(reason) && (shown matches Ok(d)
                && d.what@ == what_text(reason) && d.fix@ == fix_text(reason)),
            !may_die(old(self)@) ==> final(self)@ == old(self)@ && shown == Err::<Diagnostic, Error>(
                Error::AlreadyDead,
            ),
    {
        if !self.can_die() {
            return Err(Error::AlreadyDead);
        }
        self.state = State::Dead(reason);
        match self.message() {
            Some(lines) => Ok(lines),
            None => Err(Error::AlreadyDead),
        }
    }

    /// Declares the host alive.
    ///
    /// Refused with `AlreadyAlive`, and nothing changes, when it is alive already.
    pub fn alive(&mut self) -> (done: Result<(), Error>)
        ensures
            final(self)@ == State::Alive,
            done is Ok <==> old(self)@ != State::Alive,
            done matches Err(e) ==> e == Error::AlreadyAlive,
    {
        if self.is_alive() {
            return Err(Error::AlreadyAlive);
        }
        self.state = State::Alive;
        Ok(())
    }

    /// Sets the liveness by what is known of adapters and networks: dead for
    /// want of an adapter when none is present, else dead for want of a
    /// network when no configured network is in range, else alive.
    ///
    /// A change that is refused leaves the state as it was and is handed back.
    pub fn reconsider(&mut self, no_interfaces: bool, networks_available: bool) -> (done: Result<
        &State,
        Error,
    >)
        ensures
            ({
                let wanted = if no_interfaces {
                    State::Dead(DeadReason::NoInterface)
                } else if !networks_available {
                    State::Dead(DeadReason::NoNetwork)
                } else {
                    State::Alive
                };
                if wanted == State::Alive || may_die(old(self)@) {
                    done == Ok::<&State, Error>(&wanted) && final(self)@ == wanted
                } else {
                    done == Err::<&State, Error>(Error::AlreadyDead) && final(self)@ == old(self)@
                }
            }),
    {
        if no_interfaces {
            match self.dead(DeadReason::NoInterface) {
                Ok(_) => {},
                Err(e) => {
                    return Err(e);
                },
            }
        } else if !networks_available {
            match self.dead(DeadReason::NoNetwork) {
                Ok(_) => {},
                Err(e) => {
                    return Err(e);
                },
            }
        } else if !self.is_alive() {
            let _revived = self.alive();
        }
        Ok(self.get())
    }

    /// Tells whether the host is dead.
    pub fn is_dead(&self) -> (yes: bool)
        ensures
            yes == (self@ != State::Alive),
    {
        match self.state {
            State::Dead(_) => true,
            State::Alive => false,
        }
    }

    /// Tells whether the host is alive.
    pub fn is_alive(&self) -> (yes: bool)
        ensures
            yes == (self@ == State::Alive),
    {
        !self.is_dead()
    }
}

impl Default for Operator {
    fn default() -> (operator: Self)
        ensures
            operator@ == State::Dead(DeadReason::Uninitialized),
    {
        Operator { state: State::Dead(DeadReason::Uninitialized) }
    }
}

} // verus!
