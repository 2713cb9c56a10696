//! Wireless adapters.

use vstd::prelude::*;
use crate::win::guid::Guid;

verus! {

/// What an adapter is doing.
#[derive(Debug, Clone, Copy, PartialEq, Eq, Structural)]
pub enum State {
    NotReady,
    Connected,
    AdHocNetworkFormed,
    Disconnecting,
    Disconnected,
    Associating,
    Discovering,
    Authenticating,
}

impl State {
    /// The value that the wireless service numbers `n`, if there is one.
    pub open spec fn numbered(n: i32) -> Option<State> {
        if n == 0 {
            Some(State::NotReady)
        } else if n == 1 {
            Some(State::Connected)
        } else if n == 2 {
            Some(State::AdHocNetworkFormed)
        } else if n == 3 {
            Some(State::Disconnecting)
        } else if n == 4 {
            Some(State::Disconnected)
        } else if n == 5 {
            Some(State::Associating)
        } else if n == 6 {
            Some(State::Discovering)
        } else if n == 7 {
            Some(State::Authenticating)
        } else {
            None
        }
    }

    /// The number that the wireless service gives this value.
    pub open spec fn number(self) -> int {
        match self {
            State::NotReady => 0,
            State::Connected => 1,
            State::AdHocNetworkFormed => 2,
            State::Disconnecting => 3,
            State::Disconnected => 4,
            State::Associating => 5,
            State::Discovering => 6,
            State::Authenticating => 7,
        }
    }

    /// Reads a number of the wireless service; `None` for a number it does not define.
    pub fn from_i32(n: i32) -> (value: Option<State>)
        ensures
            value == State::numbered(n),
    {
        if n == 0 {
            Some(State::NotReady)
        } else if n == 1 {
            Some(State::Connected)
        } else if n == 2 {
            Some(State::AdHocNetworkFormed)
        } else if n == 3 {
            Some(State::Disconnecting)
        } else if n == 4 {
            Some(State::Disconnected)
        } else if n == 5 {
            Some(State::Associating)
        } else if n == 6 {
            Some(State::Discovering)
        } else if n == 7 {
            Some(State::Authenticating)
        } else {
            None
        }
    }

    /// The number that the wireless service gives this value.
    pub fn to_i32(&self) -> (n: i32)
        ensures
            n == self.number(),
            State::numbered(n) == Some(*self),
    {
        match self {
            State::NotReady => 0,
            State::Connected => 1,
            State::AdHocNetworkFormed => 2,
            State::Disconnecting => 3,
            State::Disconnected => 4,
            State::Associating => 5,
            State::Discovering => 6,
            State::Authenticating => 7,
        }
    }
}

impl State {
    /// Reads the state that the service reports for an adapter.
    pub fn from_wlan_interface_state(state: i32) -> (value: State)
        requires
            State::numbered(state) is Some,
        ensures
            State::numbered(state) == Some(value),
    {
        match State::from_i32(state) {
            Some(value) => value,
            None => State::NotReady,
        }
    }
}

/// A wireless adapter as the service lists it.
#[derive(Debug, PartialEq, Eq)]
pub struct Interface {
    pub guid: Guid,
    pub description: String,
    pub state: State,
}

impl Clone for Interface {
    fn clone(&self) -> (copy: Self)
        ensures
            copy == *self,
    {
        Interface { guid: self.guid, description: self.description.clone(), state: self.state }
    }
}

impl Interface {
    /// Builds an adapter from the fields of the service's record of it.
    pub fn from_wlan_interface_info(guid: Guid, description: String, state: i32) -> (interface:
        Interface)
        requires
            State::numbered(state) is Some,
        ensures
            interface.guid == guid,
            interface.description == description,
            State::numbered(state) == Some(interface.state),
    {
        Interface { guid, description, state: State::from_wlan_interface_state(state) }
    }
}

} // verus!
