//! The name resolver: takes the answer of the one name query and settles on
//! the peer address.

use crate::diag::Diagnostic;
use crate::machine::answer_view;
use crate::machine::Action;
use crate::machine::Directive;
use crate::machine::Endpoint;
use crate::machine::Fatal;
use crate::machine::Phase;
use crate::types::PeerAddress;
use crate::types::ResolveError;
use vstd::prelude::*;

verus! {

/// The peer address that an answer of the name service stands for: the first
/// of its candidates. A failed query and an answer without candidates are
/// both fatal.
pub open spec fn chosen_peer(answer: Result<Seq<PeerAddress>, ResolveError>) -> Result<
    PeerAddress,
    Fatal,
> {
    match answer {
        Ok(candidates) => if candidates.len() > 0 {
            Ok(candidates[0])
        } else {
            Err(Fatal::NoCandidates)
        },
        Err(error) => Err(Fatal::ResolveFailed(error)),
    }
}

/// The diagnostic that goes with a fatal end of the resolution.
pub open spec fn resolution_failure(cause: Fatal) -> Diagnostic {
    match cause {
        Fatal::ResolveFailed(error) => Diagnostic::ResolveFailed(error),
        _ => Diagnostic::NoCandidates,
    }
}

/// Settles on the peer address: the first candidate of the answer.
pub fn select_peer(answer: &Result<Vec<PeerAddress>, ResolveError>) -> (peer: Result<
    PeerAddress,
    Fatal,
>)
    ensures
        peer == chosen_peer(answer_view(*answer)),
{
    match answer {
        Ok(candidates) => if candidates.len() > 0 {
            Ok(candidates[0])
        } else {
            Err(Fatal::NoCandidates)
        },
        Err(error) => Err(Fatal::ResolveFailed(*error)),
    }
}

impl Endpoint {
    /// With a peer address the channel is bound next; without one the
    /// program ends. The query is never repeated.
    pub open spec fn after_resolution(self, answer: Result<Seq<PeerAddress>, ResolveError>) -> (
        Endpoint,
        Directive,
    ) {
        match chosen_peer(answer) {
            Ok(peer) => (
                Endpoint { phase: Phase::Binding { peer }, ..self },
                Directive {
                    report: Some(Diagnostic::PeerResolved(peer)),
                    action: Action::Bind { port: self.settings.local_port },
                },
            ),
            Err(cause) => (
                Endpoint { phase: Phase::Halted { cause }, ..self },
                Directive {
                    report: Some(resolution_failure(cause)),
                    action: Action::Halt { cause },
                },
            ),
        }
    }

    /// Takes the answer of the name query.
    pub(crate) fn resolved(
        &mut self,
        answer: &Result<Vec<PeerAddress>, ResolveError>,
    ) -> (directive: Directive)
        ensures
            (*final(self), directive) == old(self).after_resolution(answer_view(*answer)),
    {
        match select_peer(answer) {
            Ok(peer) => {
                self.phase = Phase::Binding { peer };
                Directive {
                    report: Some(Diagnostic::PeerResolved(peer)),
                    action: Action::Bind { port: self.settings.local_port },
                }
            },
            Err(cause) => {
                self.phase = Phase::Halted { cause };
                let report = match cause {
                    Fatal::ResolveFailed(error) => Diagnostic::ResolveFailed(error),
                    _ => Diagnostic::NoCandidates,
                };
                Directive { report: Some(report), action: Action::Halt { cause } }
            },
        }
    }
}

} // verus!
