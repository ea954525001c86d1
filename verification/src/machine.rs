//! The endpoint as a state machine.
//!
//! The firmware performs one action at a time and hands the result back as
//! an event; [`Endpoint::step`] answers with the entry for the diagnostic log
//! and the next action. The transitions themselves are written down by the
//! component that owns them: the link controller, the address configurator,
//! the name resolver and the heartbeat loop.

use crate::diag::Diagnostic;
use crate::netsetup::Settings;
use crate::types::AddressState;
use crate::types::BindError;
use crate::types::IndicatorState;
use crate::types::JoinError;
use crate::types::Limit;
use crate::types::LinkState;
use crate::types::PeerAddress;
use crate::types::ResolveError;
use crate::types::SendError;
use vstd::prelude::*;

verus! {

/// Why the endpoint gave up.
#[derive(Clone, Copy, Debug, PartialEq, Eq)]
pub enum Fatal {
    /// A join attempt failed and the settings allow no further attempt.
    JoinAbandoned(JoinError),
    /// No address was assigned and the settings allow no further look.
    AddressAbandoned,
    /// The name query for the peer failed.
    ResolveFailed(ResolveError),
    /// The name query for the peer returned no address.
    NoCandidates,
    /// The channel could not be bound to its local port.
    BindFailed(BindError),
}

impl Fatal {
    /// Whether the endpoint was associated when it gave up.
    pub open spec fn after_association(self) -> bool {
        !(self is JoinAbandoned)
    }

    /// Whether the endpoint had an address when it gave up.
    pub open spec fn after_configuration(self) -> bool {
        self is ResolveFailed || self is NoCandidates || self is BindFailed
    }
}

/// Where the endpoint stands: which result it is waiting for.
#[derive(Clone, Copy, Debug, PartialEq, Eq)]
pub enum Phase {
    /// Nothing has been asked for yet.
    Idle,
    /// A join attempt is under way.
    Joining { retries_left: Limit },
    /// Associated; a look at the address configuration is under way.
    AwaitingAddress { repolls_left: Limit },
    /// Configured; the name query for the peer is under way.
    Resolving,
    /// The peer is known; the channel is being bound.
    Binding { peer: PeerAddress },
    /// Heartbeat: a datagram is on its way.
    Transmitting { peer: PeerAddress },
    /// Heartbeat: the first indicator pattern is held.
    HoldingOn { peer: PeerAddress },
    /// Heartbeat: the second indicator pattern is held.
    HoldingOff { peer: PeerAddress },
    /// The endpoint has given up. Nothing follows.
    Halted { cause: Fatal },
}

impl Phase {
    /// Whether the heartbeat loop is running.
    pub open spec fn in_heartbeat(self) -> bool {
        self is Transmitting || self is HoldingOn || self is HoldingOff
    }

    /// The peer address, from the moment it is resolved.
    pub open spec fn peer(self) -> Option<PeerAddress> {
        match self {
            Phase::Binding { peer }
            | Phase::Transmitting { peer }
            | Phase::HoldingOn { peer }
            | Phase::HoldingOff { peer } => Some(peer),
            _ => None,
        }
    }

    /// Whether the binding of the channel has been asked for.
    pub open spec fn bind_issued(self) -> bool {
        match self {
            Phase::Binding { .. }
            | Phase::Transmitting { .. }
            | Phase::HoldingOn { .. }
            | Phase::HoldingOff { .. } => true,
            Phase::Halted { cause } => cause is BindFailed,
            _ => false,
        }
    }

    /// Whether the name query has been asked for.
    pub open spec fn resolve_issued(self) -> bool {
        match self {
            Phase::Idle | Phase::Joining { .. } | Phase::AwaitingAddress { .. } => false,
            Phase::Halted { cause } => cause.after_configuration(),
            _ => true,
        }
    }
}

/// The result of the action that the endpoint asked for last.
#[derive(Debug, PartialEq, Eq)]
pub enum Event {
    /// The firmware is set up and hands over control.
    Started,
    /// A join attempt has ended.
    JoinFinished(Result<(), JoinError>),
    /// The network stack was asked for its address configuration.
    AddressPolled(AddressState),
    /// The name query has ended, with the addresses in the order in which
    /// the name service gave them.
    Resolved(Result<Vec<PeerAddress>, ResolveError>),
    /// The channel was asked to bind to its local port.
    Bound(Result<(), BindError>),
    /// A datagram was handed to the channel.
    SendFinished(Result<(), SendError>),
    /// The indicators were driven and the hold time has passed.
    HoldElapsed,
}

/// What the firmware is to do next.
#[derive(Clone, Copy, Debug, PartialEq, Eq)]
pub enum Action {
    /// Join the wireless network and wait for the outcome.
    Join { network: &'static str, passphrase: &'static str },
    /// Wait for `delay_ms` milliseconds, then ask the network stack for its
    /// address configuration.
    PollAddress { delay_ms: u64 },
    /// Query the name service for the IPv4 addresses of `hostname`.
    Resolve { hostname: &'static str },
    /// Bind the channel to the local port.
    Bind { port: u16 },
    /// Send the bytes of `message` to the peer and wait for the outcome.
    Transmit { message: &'static str, dest: PeerAddress, port: u16 },
    /// Drive both indicators to `levels` and wait for `hold_ms` milliseconds.
    Indicate { levels: IndicatorState, hold_ms: u64 },
    /// Stop with a fatal diagnostic.
    Halt { cause: Fatal },
}

/// The answer to an event: what to log, if anything, and what to do next.
#[derive(Clone, Copy, Debug, PartialEq, Eq)]
pub struct Directive {
    pub report: Option<Diagnostic>,
    pub action: Action,
}

/// The endpoint: its settings, the phase it is in, and the state that the
/// phases leave behind.
#[derive(Clone, Copy, Debug, PartialEq, Eq)]
pub struct Endpoint {
    pub settings: Settings,
    pub phase: Phase,
    pub link: LinkState,
    pub address: AddressState,
    /// The levels that the indicators were driven to last.
    pub indicators: IndicatorState,
}

/// The candidates of a name query as a sequence.
pub open spec fn answer_view(answer: Result<Vec<PeerAddress>, ResolveError>) -> Result<
    Seq<PeerAddress>,
    ResolveError,
> {
    match answer {
        Ok(candidates) => Ok(candidates@),
        Err(error) => Err(error),
    }
}

impl Endpoint {
    /// The endpoint before anything has happened: idle, disconnected,
    /// without an address, both indicators low.
    pub open spec fn initial(settings: Settings) -> Endpoint {
        Endpoint {
            settings,
            phase: Phase::Idle,
            link: LinkState::Disconnected,
            address: AddressState::Unconfigured,
            indicators: IndicatorState { local: false, radio: false },
        }
    }

    /// The state hangs together: the link is associated from the wait for an
    /// address on, the address is configured from the name query on, and
    /// during a hold the indicators show the pattern that is held.
    pub open spec fn wf(self) -> bool {
        match self.phase {
            Phase::Idle | Phase::Joining { .. } => {
                &&& self.link == LinkState::Disconnected
                &&& self.address is Unconfigured
            },
            Phase::AwaitingAddress { .. } => {
                &&& self.link == LinkState::Associated
                &&& self.address is Unconfigured
            },
            Phase::Resolving | Phase::Binding { .. } | Phase::Transmitting { .. } => {
                &&& self.link == LinkState::Associated
                &&& self.address is Configured
            },
            Phase::HoldingOn { .. } => {
                &&& self.link == LinkState::Associated
                &&& self.address is Configured
                &&& self.indicators == crate::heartbeat::first_pattern()
            },
            Phase::HoldingOff { .. } => {
                &&& self.link == LinkState::Associated
                &&& self.address is Configured
                &&& self.indicators == crate::heartbeat::second_pattern()
            },
            Phase::Halted { cause } => {
                &&& self.link == LinkState::Associated <==> cause.after_association()
                &&& self.address is Configured <==> cause.after_configuration()
            },
        }
    }

    /// The transition function. An event that answers the action under way
    /// leads to a new state and a directive; any other event leads nowhere.
    pub open spec fn next(self, event: Event) -> Option<(Endpoint, Directive)> {
        match (self.phase, event) {
            (Phase::Idle, Event::Started) => Some(self.after_start()),
            (Phase::Joining { retries_left }, Event::JoinFinished(result)) => Some(
                self.after_join(result, retries_left),
            ),
            (Phase::AwaitingAddress { repolls_left }, Event::AddressPolled(observed)) => Some(
                self.after_poll(observed, repolls_left),
            ),
            (Phase::Resolving, Event::Resolved(answer)) => Some(
                self.after_resolution(answer_view(answer)),
            ),
            (Phase::Binding { peer }, Event::Bound(result)) => Some(self.after_bind(peer, result)),
            (Phase::Transmitting { peer }, Event::SendFinished(outcome)) => Some(
                self.after_send(peer, outcome),
            ),
            (Phase::HoldingOn { peer }, Event::HoldElapsed) => Some(self.after_first_hold(peer)),
            (Phase::HoldingOff { peer }, Event::HoldElapsed) => Some(
                self.after_second_hold(peer),
            ),
            _ => None,
        }
    }

    /// The state after `event`: that of the transition, or the same state
    /// where the event leads nowhere.
    pub open spec fn state_after(self, event: Event) -> Endpoint {
        match self.next(event) {
            Some((state, _)) => state,
            None => self,
        }
    }

    /// The action that `event` leads to, if any.
    pub open spec fn action_after(self, event: Event) -> Option<Action> {
        match self.next(event) {
            Some((_, directive)) => Some(directive.action),
            None => None,
        }
    }

    /// An endpoint that waits for [`Event::Started`].
    pub fn new(settings: Settings) -> (endpoint: Endpoint)
        ensures
            endpoint == Endpoint::initial(settings),
            endpoint.wf(),
    {
        Endpoint {
            settings,
            phase: Phase::Idle,
            link: LinkState::Disconnected,
            address: AddressState::Unconfigured,
            indicators: IndicatorState { local: false, radio: false },
        }
    }

    /// Takes the result of the last action and answers with the next one.
    ///
    /// Returns `None`, and leaves the endpoint as it is, when `event` is not
    /// the result that the current phase waits for; a halted endpoint waits
    /// for nothing.
    pub fn step(&mut self, event: Event) -> (directive: Option<Directive>)
        ensures
            match old(self).next(event) {
                Some((state, answer)) => *final(self) == state && directive == Some(answer),
                None => *final(self) == *old(self) && directive is None,
            },
            old(self).wf() ==> final(self).wf(),
    {
        match event {
            Event::Started => match self.phase {
                Phase::Idle => Some(self.start()),
                _ => None,
            },
            Event::JoinFinished(result) => match self.phase {
                Phase::Joining { retries_left } => Some(self.join_finished(result, retries_left)),
                _ => None,
            },
            Event::AddressPolled(observed) => match self.phase {
                Phase::AwaitingAddress { repolls_left } => Some(
                    self.address_polled(observed, repolls_left),
                ),
                _ => None,
            },
            Event::Resolved(answer) => match self.phase {
                Phase::Resolving => Some(self.resolved(&answer)),
                _ => None,
            },
            Event::Bound(result) => match self.phase {
                Phase::Binding { peer } => Some(self.bound(peer, result)),
                _ => None,
            },
            Event::SendFinished(outcome) => match self.phase {
                Phase::Transmitting { peer } => Some(self.send_finished(peer, outcome)),
                _ => None,
            },
            Event::HoldElapsed => match self.phase {
                Phase::HoldingOn { peer } => Some(self.first_hold_elapsed(peer)),
                Phase::HoldingOff { peer } => Some(self.second_hold_elapsed(peer)),
                _ => None,
            },
        }
    }
}

} // verus!
