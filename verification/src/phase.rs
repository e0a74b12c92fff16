//! Connection phase: the three-phase state machine that determines which
//! registry is active. The surrounding connection manager owns the phase;
//! this module states the transition contract it must respect.

use vstd::prelude::*;

use crate::event::NetworkEvent;
use crate::event::NetworkEventValue;

verus! {

/// The phase of one connection. Each of the first three phases has its own
/// registry; a disconnected connection dispatches nothing.
#[derive(Debug, Clone, Copy, PartialEq, Eq, Structural)]
pub enum ConnectionPhase {
    Login,
    CharacterSelect,
    MapServer,
    Disconnected,
}

/// The phase after one emitted event: a successful login moves the connection
/// to character selection, a successful character selection moves it to the
/// map, and a logout leaves it disconnected. Every other event leaves the
/// phase unchanged.
pub open spec fn spec_phase_transition(
    phase: ConnectionPhase,
    event: NetworkEventValue,
) -> ConnectionPhase {
    match (phase, event) {
        (ConnectionPhase::Login, NetworkEventValue::LoginServerConnected { .. }) =>
            ConnectionPhase::CharacterSelect,
        (ConnectionPhase::CharacterSelect, NetworkEventValue::CharacterSelected { .. }) =>
            ConnectionPhase::MapServer,
        (ConnectionPhase::MapServer, NetworkEventValue::LoggedOut) => ConnectionPhase::Disconnected,
        _ => phase,
    }
}

impl ConnectionPhase {
    /// The phase after observing one emitted event.
    pub fn transition(self, event: &NetworkEvent) -> (r: ConnectionPhase)
        ensures
            r == spec_phase_transition(self, event@),
    {
        match (self, event) {
            (ConnectionPhase::Login, NetworkEvent::LoginServerConnected { .. }) =>
                ConnectionPhase::CharacterSelect,
            (ConnectionPhase::CharacterSelect, NetworkEvent::CharacterSelected { .. }) =>
                ConnectionPhase::MapServer,
            (ConnectionPhase::MapServer, NetworkEvent::LoggedOut) => ConnectionPhase::Disconnected,
            _ => self,
        }
    }
}

} // verus!
