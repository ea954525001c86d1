//! The heartbeat loop: binds the channel once, then sends the datagram and
//! blinks the two indicators, period after period.

use crate::diag::Diagnostic;
use crate::machine::Action;
use crate::machine::Directive;
use crate::machine::Endpoint;
use crate::machine::Fatal;
use crate::machine::Phase;
use crate::netsetup::Settings;
use crate::types::BindError;
use crate::types::IndicatorState;
use crate::types::PeerAddress;
use crate::types::SendError;
use vstd::prelude::*;

verus! {

/// The pattern of the first half of a period: local indicator high, radio
/// indicator low.
pub open spec fn first_pattern() -> IndicatorState {
    IndicatorState { local: true, radio: false }
}

/// The pattern of the second half of a period: both indicators inverted.
pub open spec fn second_pattern() -> IndicatorState {
    IndicatorState { local: false, radio: true }
}

/// What is logged about a transmit attempt.
pub open spec fn send_report(outcome: Result<(), SendError>) -> Diagnostic {
    match outcome {
        Ok(_) => Diagnostic::MessageSent,
        Err(SendError::NoRoute) => Diagnostic::NoRoute,
        Err(SendError::NotBound) => Diagnostic::ChannelNotBound,
    }
}

/// Classifies the outcome of a transmit attempt for the log.
pub fn report_send(outcome: Result<(), SendError>) -> (report: Diagnostic)
    ensures
        report == send_report(outcome),
{
    match outcome {
        Ok(_) => Diagnostic::MessageSent,
        Err(SendError::NoRoute) => Diagnostic::NoRoute,
        Err(SendError::NotBound) => Diagnostic::ChannelNotBound,
    }
}

impl Settings {
    /// The heartbeat datagram on its way to the peer.
    pub open spec fn transmit_action(self, peer: PeerAddress) -> Action {
        Action::Transmit { message: self.message, dest: peer, port: self.peer_port }
    }

    /// Driving the indicators to `levels` and holding them.
    pub open spec fn indicate_action(self, levels: IndicatorState) -> Action {
        Action::Indicate { levels, hold_ms: self.hold_ms }
    }
}

impl Endpoint {
    /// With the channel bound the first datagram is sent; a channel that
    /// cannot be bound ends the program.
    pub open spec fn after_bind(self, peer: PeerAddress, result: Result<(), BindError>) -> (
        Endpoint,
        Directive,
    ) {
        match result {
            Ok(_) => (
                Endpoint { phase: Phase::Transmitting { peer }, ..self },
                Directive {
                    report: Some(Diagnostic::ChannelBound(self.settings.local_port)),
                    action: self.settings.transmit_action(peer),
                },
            ),
            Err(error) => (
                Endpoint { phase: Phase::Halted { cause: Fatal::BindFailed(error) }, ..self },
                Directive {
                    report: Some(Diagnostic::BindFailed(error)),
                    action: Action::Halt { cause: Fatal::BindFailed(error) },
                },
            ),
        }
    }

    /// Whatever became of the datagram, the first pattern is shown and held.
    /// The outcome only decides what is logged.
    pub open spec fn after_send(self, peer: PeerAddress, outcome: Result<(), SendError>) -> (
        Endpoint,
        Directive,
    ) {
        (
            Endpoint { phase: Phase::HoldingOn { peer }, indicators: first_pattern(), ..self },
            Directive {
                report: Some(send_report(outcome)),
                action: self.settings.indicate_action(first_pattern()),
            },
        )
    }

    /// After the first hold both indicators are inverted and held again.
    /// The holds leave no trace on the log.
    pub open spec fn after_first_hold(self, peer: PeerAddress) -> (Endpoint, Directive) {
        (
            Endpoint { phase: Phase::HoldingOff { peer }, indicators: second_pattern(), ..self },
            Directive { report: None, action: self.settings.indicate_action(second_pattern()) },
        )
    }

    /// After the second hold the period is over and the next datagram is
    /// sent to the same peer.
    pub open spec fn after_second_hold(self, peer: PeerAddress) -> (Endpoint, Directive) {
        (
            Endpoint { phase: Phase::Transmitting { peer }, ..self },
            Directive { report: None, action: self.settings.transmit_action(peer) },
        )
    }

    /// The heartbeat datagram on its way to `peer`.
    fn transmit(&self, peer: PeerAddress) -> (action: Action)
        ensures
            action == self.settings.transmit_action(peer),
    {
        Action::Transmit {
            message: self.settings.message,
            dest: peer,
            port: self.settings.peer_port,
        }
    }

    /// Shows `levels` on the indicators and holds them.
    fn show(&mut self, levels: IndicatorState) -> (action: Action)
        ensures
            *final(self) == (Endpoint { indicators: levels, ..*old(self) }),
            action == old(self).settings.indicate_action(levels),
    {
        self.indicators = levels;
        Action::Indicate { levels, hold_ms: self.settings.hold_ms }
    }

    /// Takes the outcome of binding the channel.
    pub(crate) fn bound(
        &mut self,
        peer: PeerAddress,
        result: Result<(), BindError>,
    ) -> (directive: Directive)
        ensures
            (*final(self), directive) == old(self).after_bind(peer, result),
    {
        match result {
            Ok(_) => {
                self.phase = Phase::Transmitting { peer };
                Directive {
                    report: Some(Diagnostic::ChannelBound(self.settings.local_port)),
                    action: self.transmit(peer),
                }
            },
            Err(error) => {
                let cause = Fatal::BindFailed(error);
                self.phase = Phase::Halted { cause };
                Directive {
                    report: Some(Diagnostic::BindFailed(error)),
                    action: Action::Halt { cause },
                }
            },
        }
    }

    /// Takes the outcome of a transmit attempt and starts the first hold.
    pub(crate) fn send_finished(
        &mut self,
        peer: PeerAddress,
        outcome: Result<(), SendError>,
    ) -> (directive: Directive)
        ensures
            (*final(self), directive) == old(self).after_send(peer, outcome),
    {
        self.phase = Phase::HoldingOn { peer };
        let action = self.show(IndicatorState { local: true, radio: false });
        Directive { report: Some(report_send(outcome)), action }
    }

    /// Takes the end of the first hold and starts the second.
    pub(crate) fn first_hold_elapsed(&mut self, peer: PeerAddress) -> (directive: Directive)
        ensures
            (*final(self), directive) == old(self).after_first_hold(peer),
    {
        self.phase = Phase::HoldingOff { peer };
        let action = self.show(IndicatorState { local: false, radio: true });
        Directive { report: None, action }
    }

    /// Takes the end of the second hold and starts the next period.
    pub(crate) fn second_hold_elapsed(&mut self, peer: PeerAddress) -> (directive: Directive)
        ensures
            (*final(self), directive) == old(self).after_second_hold(peer),
    {
        self.phase = Phase::Transmitting { peer };
        Directive { report: None, action: self.transmit(peer) }
    }
}

} // verus!
