//! What the endpoint reports on its diagnostic log, and how loudly.

use crate::types::BindError;
use crate::types::JoinError;
use crate::types::LocalAddress;
use crate::types::PeerAddress;
use crate::types::ResolveError;
use vstd::prelude::*;

verus! {

/// How loudly a diagnostic is logged.
#[derive(Clone, Copy, Debug, PartialEq, Eq, Structural)]
pub enum Severity {
    /// An expected transition.
    Info,
    /// A failure that the endpoint recovers from by itself.
    Warn,
    /// A failure that should not happen, or that ends the program.
    Error,
}

impl Severity {
    /// The position of the severity, from the quietest up.
    pub open spec fn rank(self) -> nat {
        match self {
            Severity::Info => 0,
            Severity::Warn => 1,
            Severity::Error => 2,
        }
    }
}

/// One entry of the diagnostic log: a transition of the endpoint, or a
/// failure.
#[derive(Clone, Copy, Debug, PartialEq, Eq)]
pub enum Diagnostic {
    /// The program has started.
    ProgramStart,
    /// The access point accepted the join; the wait for an address begins.
    Joined,
    /// A join attempt failed and is tried again.
    JoinFailed(JoinError),
    /// A join attempt failed and no retry is left.
    JoinAbandoned(JoinError),
    /// No address has been assigned and no further look is left.
    AddressAbandoned,
    /// DHCP is up, with this address.
    AddressConfigured(LocalAddress),
    /// The peer's name resolved to this address.
    PeerResolved(PeerAddress),
    /// The name query failed.
    ResolveFailed(ResolveError),
    /// The name query succeeded without any address.
    NoCandidates,
    /// The channel is bound to this local port.
    ChannelBound(u16),
    /// The channel could not be bound.
    BindFailed(BindError),
    /// The heartbeat datagram went out.
    MessageSent,
    /// The datagram had no route to the peer.
    NoRoute,
    /// The datagram was refused because the channel is not bound.
    ChannelNotBound,
}

impl Diagnostic {
    /// Expected transitions are informational, failures that are retried or
    /// passed over are warnings, and failures that end the program are
    /// errors, as is a send on an unbound channel.
    pub open spec fn severity_of(self) -> Severity {
        match self {
            Diagnostic::JoinFailed(_) | Diagnostic::NoRoute => Severity::Warn,
            Diagnostic::JoinAbandoned(_)
            | Diagnostic::AddressAbandoned
            | Diagnostic::ResolveFailed(_)
            | Diagnostic::NoCandidates
            | Diagnostic::BindFailed(_)
            | Diagnostic::ChannelNotBound => Severity::Error,
            _ => Severity::Info,
        }
    }

    /// Whether the diagnostic reports a failure that ends the program.
    pub open spec fn fatal(self) -> bool {
        match self {
            Diagnostic::JoinAbandoned(_)
            | Diagnostic::AddressAbandoned
            | Diagnostic::ResolveFailed(_)
            | Diagnostic::NoCandidates
            | Diagnostic::BindFailed(_) => true,
            _ => false,
        }
    }

    /// The severity to log the diagnostic with.
    pub fn severity(&self) -> (level: Severity)
        ensures
            level == self.severity_of(),
    {
        match self {
            Diagnostic::JoinFailed(_) | Diagnostic::NoRoute => Severity::Warn,
            Diagnostic::JoinAbandoned(_)
            | Diagnostic::AddressAbandoned
            | Diagnostic::ResolveFailed(_)
            | Diagnostic::NoCandidates
            | Diagnostic::BindFailed(_)
            | Diagnostic::ChannelNotBound => Severity::Error,
            _ => Severity::Info,
        }
    }

    /// Whether the program ends with this diagnostic.
    pub fn is_fatal(&self) -> (fatal: bool)
        ensures
            fatal == self.fatal(),
    {
        match self {
            Diagnostic::JoinAbandoned(_)
            | Diagnostic::AddressAbandoned
            | Diagnostic::ResolveFailed(_)
            | Diagnostic::NoCandidates
            | Diagnostic::BindFailed(_) => true,
            _ => false,
        }
    }
}

} // verus!
