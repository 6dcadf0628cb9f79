use vstd::prelude::*;

use std::collections::HashMap;

use crate::end_point::{EndpointType, EndpointTypeModel};
use crate::proxy_pass_to::ConfigError;
use crate::routing::ProxyPassError;

verus! {

broadcast use vstd::std_specs::hash::group_hash_axioms;

/// The state of a lazily opened upstream connection.
#[derive(Clone, Copy, Debug, PartialEq, Eq, Structural)]
pub enum SourceState {
    Disconnected,
    Ready,
}

/// What to do before sending the next request.
#[derive(Clone, Copy, Debug, PartialEq, Eq, Structural)]
pub enum SourceAction {
    Connect,
    Send,
}

/// A request needs a handshake first unless a connection is ready.
pub fn next_action(state: SourceState) -> (r: SourceAction)
    ensures
        r == (if state == SourceState::Ready {
            SourceAction::Send
        } else {
            SourceAction::Connect
        }),
{
    match state {
        SourceState::Ready => SourceAction::Send,
        SourceState::Disconnected => SourceAction::Connect,
    }
}

/// The state after a handshake or a request: any failure leaves the source
/// disconnected, so that the next request opens a fresh connection.
pub fn after_outcome(outcome: Result<(), ProxyPassError>) -> (r: SourceState)
    ensures
        r == (if outcome is Ok {
            SourceState::Ready
        } else {
            SourceState::Disconnected
        }),
{
    match outcome {
        Ok(()) => SourceState::Ready,
        Err(_) => SourceState::Disconnected,
    }
}

/// The listener shape of an endpoint type.
#[derive(Clone, Copy, Debug, PartialEq, Eq, Structural)]
pub enum EndpointKind {
    Http1,
    Https1,
    Http2,
    Https2,
    Tcp,
    TcpOverSsh,
}

pub open spec fn kind_of(t: EndpointTypeModel) -> EndpointKind {
    match t {
        EndpointTypeModel::Http1 { .. } => EndpointKind::Http1,
        EndpointTypeModel::Https { .. } => EndpointKind::Https1,
        EndpointTypeModel::Http2 { .. } => EndpointKind::Http2,
        EndpointTypeModel::Https2 { .. } => EndpointKind::Https2,
        EndpointTypeModel::Tcp { .. } => EndpointKind::Tcp,
        EndpointTypeModel::TcpOverSsh { .. } => EndpointKind::TcpOverSsh,
    }
}

impl EndpointType {
    pub fn kind(&self) -> (r: EndpointKind)
        ensures
            r == kind_of(self@),
    {
        match self {
            EndpointType::Http1 { .. } => EndpointKind::Http1,
            EndpointType::Https { .. } => EndpointKind::Https1,
            EndpointType::Http2 { .. } => EndpointKind::Http2,
            EndpointType::Https2 { .. } => EndpointKind::Https2,
            EndpointType::Tcp { .. } => EndpointKind::Tcp,
            EndpointType::TcpOverSsh { .. } => EndpointKind::TcpOverSsh,
        }
    }
}

/// Listen ports and the listener shape each one presents.
pub struct ListenPorts {
    ports: HashMap<u16, EndpointKind>,
}

impl View for ListenPorts {
    type V = Map<u16, EndpointKind>;

    closed spec fn view(&self) -> Map<u16, EndpointKind> {
        self.ports@
    }
}

impl ListenPorts {
    pub fn new() -> (r: Self)
        ensures
            r@ == Map::<u16, EndpointKind>::empty(),
    {
        ListenPorts { ports: HashMap::new() }
    }

    /// Declares a host on `port`; hosts that share a port must agree on the
    /// listener shape, else the configuration is refused.
    pub fn add(&mut self, port: u16, kind: EndpointKind) -> (r: Result<(), ConfigError>)
        ensures
            old(self)@.contains_key(port) && old(self)@[port] != kind ==> (r == Err::<(), ConfigError>(
                ConfigError::PortTypeConflict,
            ) && final(self)@ == old(self)@),
            !(old(self)@.contains_key(port) && old(self)@[port] != kind) ==> (r is Ok
                && final(self)@ == old(self)@.insert(port, kind)),
    {
        match self.ports.get(&port) {
            Some(existing) => {
                if *existing != kind {
                    return Err(ConfigError::PortTypeConflict);
                }
                assert(old(self)@.insert(port, kind) =~= old(self)@);
                Ok(())
            },
            None => {
                self.ports.insert(port, kind);
                Ok(())
            },
        }
    }

    /// The listener shape of `port`, where one is declared.
    pub fn get(&self, port: u16) -> (r: Option<EndpointKind>)
        ensures
            r == (if self@.contains_key(port) {
                Some(self@[port])
            } else {
                None::<EndpointKind>
            }),
    {
        match self.ports.get(&port) {
            Some(k) => Some(*k),
            None => None,
        }
    }
}

} // verus!
