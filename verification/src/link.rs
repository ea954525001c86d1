//! The link controller: joins the wireless network, and tries again for as
//! long as the settings allow when the access point refuses.

use crate::diag::Diagnostic;
use crate::machine::Action;
use crate::machine::Directive;
use crate::machine::Endpoint;
use crate::machine::Fatal;
use crate::machine::Phase;
use crate::netsetup::Settings;
use crate::types::JoinError;
use crate::types::Limit;
use crate::types::LinkState;
use vstd::prelude::*;

verus! {

impl Settings {
    /// A join attempt with the configured network name and passphrase.
    pub open spec fn join_action(self) -> Action {
        Action::Join { network: self.network, passphrase: self.passphrase }
    }
}

impl Endpoint {
    /// At the start the first join attempt is made, with all retries left.
    pub open spec fn after_start(self) -> (Endpoint, Directive) {
        (
            Endpoint {
                phase: Phase::Joining { retries_left: self.settings.join_retries },
                ..self
            },
            Directive {
                report: Some(Diagnostic::ProgramStart),
                action: self.settings.join_action(),
            },
        )
    }

    /// A successful join associates the link and starts the wait for an
    /// address with a look at once. A failed join is tried again at once
    /// while a retry is left, and ends the program otherwise.
    pub open spec fn after_join(self, result: Result<(), JoinError>, retries_left: Limit) -> (
        Endpoint,
        Directive,
    ) {
        match result {
            Ok(_) => (
                Endpoint {
                    phase: Phase::AwaitingAddress { repolls_left: self.settings.address_repolls },
                    link: LinkState::Associated,
                    ..self
                },
                Directive {
                    report: Some(Diagnostic::Joined),
                    action: Action::PollAddress { delay_ms: 0 },
                },
            ),
            Err(error) => if retries_left.allows_retry() {
                (
                    Endpoint {
                        phase: Phase::Joining { retries_left: retries_left.spent() },
                        ..self
                    },
                    Directive {
                        report: Some(Diagnostic::JoinFailed(error)),
                        action: self.settings.join_action(),
                    },
                )
            } else {
                (
                    Endpoint {
                        phase: Phase::Halted { cause: Fatal::JoinAbandoned(error) },
                        ..self
                    },
                    Directive {
                        report: Some(Diagnostic::JoinAbandoned(error)),
                        action: Action::Halt { cause: Fatal::JoinAbandoned(error) },
                    },
                )
            },
        }
    }

    /// The join attempt that the settings describe.
    fn join(&self) -> (action: Action)
        ensures
            action == self.settings.join_action(),
    {
        Action::Join { network: self.settings.network, passphrase: self.settings.passphrase }
    }

    /// Takes the start of the firmware and asks for the first join.
    pub(crate) fn start(&mut self) -> (directive: Directive)
        ensures
            (*final(self), directive) == old(self).after_start(),
    {
        self.phase = Phase::Joining { retries_left: self.settings.join_retries };
        Directive { report: Some(Diagnostic::ProgramStart), action: self.join() }
    }

    /// Takes the outcome of a join attempt made with `retries_left` retries
    /// in hand.
    pub(crate) fn join_finished(
        &mut self,
        result: Result<(), JoinError>,
        retries_left: Limit,
    ) -> (directive: Directive)
        ensures
            (*final(self), directive) == old(self).after_join(result, retries_left),
    {
        match result {
            Ok(_) => {
                self.link = LinkState::Associated;
                self.phase = Phase::AwaitingAddress {
                    repolls_left: self.settings.address_repolls,
                };
                Directive {
                    report: Some(Diagnostic::Joined),
                    action: Action::PollAddress { delay_ms: 0 },
                }
            },
            Err(error) => match retries_left.spend() {
                Some(left) => {
                    self.phase = Phase::Joining { retries_left: left };
                    Directive { report: Some(Diagnostic::JoinFailed(error)), action: self.join() }
                },
                None => {
                    let cause = Fatal::JoinAbandoned(error);
                    self.phase = Phase::Halted { cause };
                    Directive {
                        report: Some(Diagnostic::JoinAbandoned(error)),
                        action: Action::Halt { cause },
                    }
                },
            },
        }
    }
}

} // verus!
