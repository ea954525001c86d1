use picow_heartbeat::diag::{Diagnostic, Severity};
use picow_heartbeat::heartbeat::report_send;
use picow_heartbeat::types::{
    BindError, JoinError, LocalAddress, PeerAddress, ResolveError, SendError,
};

fn all_diagnostics() -> Vec<Diagnostic> {
    vec![
        Diagnostic::ProgramStart,
        Diagnostic::Joined,
        Diagnostic::JoinFailed(JoinError { status: 1 }),
        Diagnostic::JoinAbandoned(JoinError { status: 1 }),
        Diagnostic::AddressAbandoned,
        Diagnostic::AddressConfigured(LocalAddress { octets: [172, 16, 0, 9], prefix_len: 12 }),
        Diagnostic::PeerResolved(PeerAddress { octets: [172, 16, 0, 1] }),
        Diagnostic::ResolveFailed(ResolveError::Failed),
        Diagnostic::NoCandidates,
        Diagnostic::ChannelBound(9400),
        Diagnostic::BindFailed(BindError::NoRoute),
        Diagnostic::MessageSent,
        Diagnostic::NoRoute,
        Diagnostic::ChannelNotBound,
    ]
}

#[test]
fn expected_transitions_are_informational() {
    for diagnostic in [
        Diagnostic::ProgramStart,
        Diagnostic::Joined,
        Diagnostic::AddressConfigured(LocalAddress { octets: [172, 16, 0, 9], prefix_len: 12 }),
        Diagnostic::PeerResolved(PeerAddress { octets: [172, 16, 0, 1] }),
        Diagnostic::ChannelBound(9400),
        Diagnostic::MessageSent,
    ] {
        assert_eq!(diagnostic.severity(), Severity::Info);
        assert!(!diagnostic.is_fatal());
    }
}

#[test]
fn recoverable_failures_are_warnings() {
    for diagnostic in [Diagnostic::JoinFailed(JoinError { status: 7 }), Diagnostic::NoRoute] {
        assert_eq!(diagnostic.severity(), Severity::Warn);
        assert!(!diagnostic.is_fatal());
    }
}

#[test]
fn an_unbound_channel_is_an_error_but_not_fatal() {
    assert_eq!(Diagnostic::ChannelNotBound.severity(), Severity::Error);
    assert!(!Diagnostic::ChannelNotBound.is_fatal());
}

#[test]
fn fatal_diagnostics_are_errors() {
    let fatal = [
        Diagnostic::JoinAbandoned(JoinError { status: 7 }),
        Diagnostic::AddressAbandoned,
        Diagnostic::ResolveFailed(ResolveError::InvalidName),
        Diagnostic::ResolveFailed(ResolveError::NameTooLong),
        Diagnostic::ResolveFailed(ResolveError::Failed),
        Diagnostic::NoCandidates,
        Diagnostic::BindFailed(BindError::InvalidState),
        Diagnostic::BindFailed(BindError::NoRoute),
    ];
    for diagnostic in fatal {
        assert!(diagnostic.is_fatal());
        assert_eq!(diagnostic.severity(), Severity::Error);
    }
    let count = all_diagnostics().iter().filter(|d| d.is_fatal()).count();
    assert_eq!(count, 5);
}

#[test]
fn send_outcomes_are_told_apart() {
    assert_eq!(report_send(Ok(())), Diagnostic::MessageSent);
    assert_eq!(report_send(Err(SendError::NoRoute)), Diagnostic::NoRoute);
    assert_eq!(report_send(Err(SendError::NotBound)), Diagnostic::ChannelNotBound);
    // the unbound channel is reported more loudly than the missing route
    assert_eq!(report_send(Err(SendError::NoRoute)).severity(), Severity::Warn);
    assert_eq!(report_send(Err(SendError::NotBound)).severity(), Severity::Error);
    assert_eq!(report_send(Ok(())).severity(), Severity::Info);
}
