//! The kinds of failure, and how far each of them reaches.

use vstd::prelude::*;
use crate::acceptor::{BridgeError, ProtocolError};
use crate::endpoint::ConnectivityError;
use crate::identity::IdentityError;
use crate::process::ProcessError;

verus! {

/// Any failure of the tunnel.
#[derive(Debug, Clone, Copy, PartialEq, Eq, Structural)]
pub enum Fault {
    Identity(IdentityError),
    Connectivity(ConnectivityError),
    Protocol(ProtocolError),
    Bridge(BridgeError),
    Process(ProcessError),
}

/// How far a failure reaches.
#[derive(Debug, Clone, Copy, PartialEq, Eq, Structural)]
pub enum Propagation {
    /// The program cannot start: it ends with a failure.
    FatalAtStartup,
    /// The connection it happened on is closed; all others go on.
    ClosesConnection,
    /// The stream it happened on is dropped; all others go on.
    DropsStream,
    /// Whoever started the process gets the failure.
    ToProcessOwner,
}

impl Fault {
    /// How far this failure reaches: a node without identity or
    /// connectivity cannot start, a protocol failure costs one connection, a
    /// bridge failure one stream, and a failed process is its owner's
    /// business.
    pub open spec fn reach(self) -> Propagation {
        match self {
            Fault::Identity(_) => Propagation::FatalAtStartup,
            Fault::Connectivity(_) => Propagation::FatalAtStartup,
            Fault::Protocol(_) => Propagation::ClosesConnection,
            Fault::Bridge(_) => Propagation::DropsStream,
            Fault::Process(_) => Propagation::ToProcessOwner,
        }
    }

    /// How far this failure reaches.
    pub fn propagation(&self) -> (reach: Propagation)
        ensures
            reach == self.reach(),
    {
        match self {
            Fault::Identity(_) => Propagation::FatalAtStartup,
            Fault::Connectivity(_) => Propagation::FatalAtStartup,
            Fault::Protocol(_) => Propagation::ClosesConnection,
            Fault::Bridge(_) => Propagation::DropsStream,
            Fault::Process(_) => Propagation::ToProcessOwner,
        }
    }

    /// The words for this failure in a log record.
    pub open spec fn words(self) -> Seq<char> {
        match self {
            Fault::Identity(IdentityError::NotFound) => "no stored identity found"@,
            Fault::Identity(IdentityError::IoFailure) => "failed to read the stored secret key"@,
            Fault::Identity(IdentityError::CorruptKeyPair) => "the stored key pair is corrupt"@,
            Fault::Connectivity(ConnectivityError::BindFailure) => "failed to bind the endpoint"@,
            Fault::Connectivity(ConnectivityError::ReadinessTimeout) =>
                "the endpoint did not become reachable in time"@,
            Fault::Protocol(ProtocolError::UnsupportedTag) =>
                "not allowed: unsupported application tag"@,
            Fault::Protocol(ProtocolError::PeerIdentityUnavailable) =>
                "not allowed: the peer has no identity"@,
            Fault::Bridge(BridgeError::LocalConnectFailure) =>
                "failed to connect to the local target"@,
            Fault::Bridge(BridgeError::StreamOpenFailure) => "failed to open a stream to the peer"@,
            Fault::Process(ProcessError::SpawnFailure) => "failed to start the process"@,
            Fault::Process(ProcessError::AbnormalExit) => "the process ended with a failure"@,
        }
    }

    /// The words for this failure in a log record.
    pub fn describe(&self) -> (text: &'static str)
        ensures
            text@ == self.words(),
    {
        match self {
            Fault::Identity(IdentityError::NotFound) => "no stored identity found",
            Fault::Identity(IdentityError::IoFailure) => "failed to read the stored secret key",
            Fault::Identity(IdentityError::CorruptKeyPair) => "the stored key pair is corrupt",
            Fault::Connectivity(ConnectivityError::BindFailure) => "failed to bind the endpoint",
            Fault::Connectivity(ConnectivityError::ReadinessTimeout) =>
                "the endpoint did not become reachable in time",
            Fault::Protocol(ProtocolError::UnsupportedTag) =>
                "not allowed: unsupported application tag",
            Fault::Protocol(ProtocolError::PeerIdentityUnavailable) =>
                "not allowed: the peer has no identity",
            Fault::Bridge(BridgeError::LocalConnectFailure) =>
                "failed to connect to the local target",
            Fault::Bridge(BridgeError::StreamOpenFailure) => "failed to open a stream to the peer",
            Fault::Process(ProcessError::SpawnFailure) => "failed to start the process",
            Fault::Process(ProcessError::AbnormalExit) => "the process ended with a failure",
        }
    }
}

} // verus!
