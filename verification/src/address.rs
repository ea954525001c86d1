//! The address configurator: looks at the address configuration of the
//! network stack until DHCP has completed.

use crate::diag::Diagnostic;
use crate::machine::Action;
use crate::machine::Directive;
use crate::machine::Endpoint;
use crate::machine::Fatal;
use crate::machine::Phase;
use crate::types::AddressState;
use crate::types::Limit;
use vstd::prelude::*;

verus! {

impl Endpoint {
    /// Once an address is configured it is recorded and the peer's name is
    /// queried. Until then the stack is asked again after the poll interval
    /// while a look is left, without a word on the log, and the program ends
    /// otherwise.
    pub open spec fn after_poll(self, observed: AddressState, repolls_left: Limit) -> (
        Endpoint,
        Directive,
    ) {
        match observed {
            AddressState::Configured(local) => (
                Endpoint { phase: Phase::Resolving, address: observed, ..self },
                Directive {
                    report: Some(Diagnostic::AddressConfigured(local)),
                    action: Action::Resolve { hostname: self.settings.peer_name },
                },
            ),
            AddressState::Unconfigured => if repolls_left.allows_retry() {
                (
                    Endpoint {
                        phase: Phase::AwaitingAddress { repolls_left: repolls_left.spent() },
                        ..self
                    },
                    Directive {
                        report: None,
                        action: Action::PollAddress { delay_ms: self.settings.poll_interval_ms },
                    },
                )
            } else {
                (
                    Endpoint { phase: Phase::Halted { cause: Fatal::AddressAbandoned }, ..self },
                    Directive {
                        report: Some(Diagnostic::AddressAbandoned),
                        action: Action::Halt { cause: Fatal::AddressAbandoned },
                    },
                )
            },
        }
    }

    /// Takes what a look at the address configuration has found, with
    /// `repolls_left` further looks in hand.
    pub(crate) fn address_polled(
        &mut self,
        observed: AddressState,
        repolls_left: Limit,
    ) -> (directive: Directive)
        ensures
            (*final(self), directive) == old(self).after_poll(observed, repolls_left),
    {
        match observed {
            AddressState::Configured(local) => {
                self.address = observed;
                self.phase = Phase::Resolving;
                Directive {
                    report: Some(Diagnostic::AddressConfigured(local)),
                    action: Action::Resolve { hostname: self.settings.peer_name },
                }
            },
            AddressState::Unconfigured => match repolls_left.spend() {
                Some(left) => {
                    self.phase = Phase::AwaitingAddress { repolls_left: left };
                    Directive {
                        report: None,
                        action: Action::PollAddress { delay_ms: self.settings.poll_interval_ms },
                    }
                },
                None => {
                    self.phase = Phase::Halted { cause: Fatal::AddressAbandoned };
                    Directive {
                        report: Some(Diagnostic::AddressAbandoned),
                        action: Action::Halt { cause: Fatal::AddressAbandoned },
                    }
                },
            },
        }
    }
}

} // verus!
