use picow_heartbeat::diag::Diagnostic;
use picow_heartbeat::machine::{Action, Endpoint, Event, Fatal, Phase};
use picow_heartbeat::netsetup::Settings;
use picow_heartbeat::resolver::select_peer;
use picow_heartbeat::types::{
    AddressState, BindError, IndicatorState, JoinError, Limit, LinkState, LocalAddress,
    PeerAddress, ResolveError, SendError,
};

const ADDRESS: LocalAddress = LocalAddress { octets: [10, 0, 0, 23], prefix_len: 8 };
const FIRST: PeerAddress = PeerAddress { octets: [10, 0, 0, 1] };
const SECOND: PeerAddress = PeerAddress { octets: [10, 0, 0, 2] };

fn bounded(join_retries: Limit, address_repolls: Limit) -> Settings {
    Settings { join_retries, address_repolls, ..Settings::reference() }
}

fn every_event() -> Vec<Event> {
    vec![
        Event::Started,
        Event::JoinFinished(Ok(())),
        Event::JoinFinished(Err(JoinError { status: 2 })),
        Event::AddressPolled(AddressState::Unconfigured),
        Event::AddressPolled(AddressState::Configured(ADDRESS)),
        Event::Resolved(Ok(vec![FIRST])),
        Event::Resolved(Ok(vec![])),
        Event::Resolved(Err(ResolveError::Failed)),
        Event::Bound(Ok(())),
        Event::Bound(Err(BindError::InvalidState)),
        Event::SendFinished(Ok(())),
        Event::SendFinished(Err(SendError::NoRoute)),
        Event::SendFinished(Err(SendError::NotBound)),
        Event::HoldElapsed,
    ]
}

fn awaited(phase: Phase, event: &Event) -> bool {
    matches!(
        (phase, event),
        (Phase::Idle, Event::Started)
            | (Phase::Joining { .. }, Event::JoinFinished(_))
            | (Phase::AwaitingAddress { .. }, Event::AddressPolled(_))
            | (Phase::Resolving, Event::Resolved(_))
            | (Phase::Binding { .. }, Event::Bound(_))
            | (Phase::Transmitting { .. }, Event::SendFinished(_))
            | (Phase::HoldingOn { .. }, Event::HoldElapsed)
            | (Phase::HoldingOff { .. }, Event::HoldElapsed)
    )
}

#[test]
fn new_endpoint_is_idle_and_dark() {
    let endpoint = Endpoint::new(Settings::reference());
    assert_eq!(endpoint.settings, Settings::reference());
    assert_eq!(endpoint.phase, Phase::Idle);
    assert_eq!(endpoint.link, LinkState::Disconnected);
    assert_eq!(endpoint.address, AddressState::Unconfigured);
    assert_eq!(endpoint.indicators, IndicatorState { local: false, radio: false });
}

#[test]
fn events_that_are_not_awaited_change_nothing() {
    // walk through every phase of a bring-up and offer every event in each
    let script = vec![
        Event::Started,
        Event::JoinFinished(Ok(())),
        Event::AddressPolled(AddressState::Configured(ADDRESS)),
        Event::Resolved(Ok(vec![FIRST])),
        Event::Bound(Ok(())),
        Event::SendFinished(Ok(())),
        Event::HoldElapsed,
        Event::HoldElapsed,
    ];
    let mut endpoint = Endpoint::new(Settings::reference());
    let mut phases = 0;
    for event in script {
        for other in every_event() {
            let mut copy = endpoint;
            let expected = awaited(endpoint.phase, &other);
            assert_eq!(copy.step(other).is_some(), expected);
            if !expected {
                assert_eq!(copy, endpoint);
            }
        }
        assert!(endpoint.step(event).is_some());
        phases += 1;
    }
    assert_eq!(phases, 8);
    assert_eq!(endpoint.phase, Phase::Transmitting { peer: FIRST });
}

#[test]
fn halted_endpoint_answers_nothing() {
    let mut endpoint = Endpoint::new(bounded(Limit::AtMost(0), Limit::Unbounded));
    endpoint.step(Event::Started).unwrap();
    endpoint.step(Event::JoinFinished(Err(JoinError { status: 9 }))).unwrap();
    let halted = endpoint;
    let cause = Fatal::JoinAbandoned(JoinError { status: 9 });
    assert_eq!(halted.phase, Phase::Halted { cause });
    for event in every_event() {
        assert_eq!(endpoint.step(event), None);
        assert_eq!(endpoint, halted);
    }
}

#[test]
fn unbounded_join_retries_never_give_up() {
    let mut endpoint = Endpoint::new(Settings::reference());
    endpoint.step(Event::Started).unwrap();
    for status in 0..1000u32 {
        let again = endpoint.step(Event::JoinFinished(Err(JoinError { status }))).unwrap();
        assert_eq!(again.report, Some(Diagnostic::JoinFailed(JoinError { status })));
        assert_eq!(again.action, Action::Join { network: "WIFINAME", passphrase: "wifipasswd" });
        assert_eq!(endpoint.phase, Phase::Joining { retries_left: Limit::Unbounded });
        assert_eq!(endpoint.link, LinkState::Disconnected);
    }
}

#[test]
fn bounded_join_retries_are_counted_down() {
    let mut endpoint = Endpoint::new(bounded(Limit::AtMost(2), Limit::Unbounded));
    let start = endpoint.step(Event::Started).unwrap();
    assert!(matches!(start.action, Action::Join { .. }));
    assert_eq!(endpoint.phase, Phase::Joining { retries_left: Limit::AtMost(2) });

    let error = JoinError { status: 4 };
    let first = endpoint.step(Event::JoinFinished(Err(error))).unwrap();
    assert!(matches!(first.action, Action::Join { .. }));
    assert_eq!(endpoint.phase, Phase::Joining { retries_left: Limit::AtMost(1) });
    let second = endpoint.step(Event::JoinFinished(Err(error))).unwrap();
    assert!(matches!(second.action, Action::Join { .. }));
    assert_eq!(endpoint.phase, Phase::Joining { retries_left: Limit::AtMost(0) });

    let third = endpoint.step(Event::JoinFinished(Err(error))).unwrap();
    assert_eq!(third.report, Some(Diagnostic::JoinAbandoned(error)));
    assert_eq!(third.action, Action::Halt { cause: Fatal::JoinAbandoned(error) });
    assert_eq!(endpoint.phase, Phase::Halted { cause: Fatal::JoinAbandoned(error) });
    assert_eq!(endpoint.link, LinkState::Disconnected);
}

#[test]
fn bounded_join_retries_still_allow_a_late_success() {
    let mut endpoint = Endpoint::new(bounded(Limit::AtMost(1), Limit::Unbounded));
    endpoint.step(Event::Started).unwrap();
    endpoint.step(Event::JoinFinished(Err(JoinError { status: 1 }))).unwrap();
    let joined = endpoint.step(Event::JoinFinished(Ok(()))).unwrap();
    assert_eq!(joined.report, Some(Diagnostic::Joined));
    assert_eq!(endpoint.link, LinkState::Associated);
    assert_eq!(endpoint.phase, Phase::AwaitingAddress { repolls_left: Limit::Unbounded });
}

#[test]
fn bounded_address_polls_are_counted_down() {
    let mut endpoint = Endpoint::new(bounded(Limit::Unbounded, Limit::AtMost(1)));
    endpoint.step(Event::Started).unwrap();
    let joined = endpoint.step(Event::JoinFinished(Ok(()))).unwrap();
    assert_eq!(joined.action, Action::PollAddress { delay_ms: 0 });
    assert_eq!(endpoint.phase, Phase::AwaitingAddress { repolls_left: Limit::AtMost(1) });

    let again = endpoint.step(Event::AddressPolled(AddressState::Unconfigured)).unwrap();
    assert_eq!(again.action, Action::PollAddress { delay_ms: 100 });
    assert_eq!(endpoint.phase, Phase::AwaitingAddress { repolls_left: Limit::AtMost(0) });

    let end = endpoint.step(Event::AddressPolled(AddressState::Unconfigured)).unwrap();
    assert_eq!(end.report, Some(Diagnostic::AddressAbandoned));
    assert_eq!(end.action, Action::Halt { cause: Fatal::AddressAbandoned });
    assert_eq!(endpoint.phase, Phase::Halted { cause: Fatal::AddressAbandoned });
    assert_eq!(endpoint.link, LinkState::Associated);
    assert_eq!(endpoint.address, AddressState::Unconfigured);
}

#[test]
fn unbounded_address_polls_never_give_up() {
    let mut endpoint = Endpoint::new(Settings::reference());
    endpoint.step(Event::Started).unwrap();
    endpoint.step(Event::JoinFinished(Ok(()))).unwrap();
    for _ in 0..1000 {
        let again = endpoint.step(Event::AddressPolled(AddressState::Unconfigured)).unwrap();
        assert_eq!(again.report, None);
        assert_eq!(again.action, Action::PollAddress { delay_ms: 100 });
    }
    assert_eq!(endpoint.phase, Phase::AwaitingAddress { repolls_left: Limit::Unbounded });
}

#[test]
fn the_first_candidate_becomes_the_peer() {
    let mut endpoint = Endpoint::new(Settings::reference());
    endpoint.step(Event::Started).unwrap();
    endpoint.step(Event::JoinFinished(Ok(()))).unwrap();
    endpoint.step(Event::AddressPolled(AddressState::Configured(ADDRESS))).unwrap();
    let resolved = endpoint.step(Event::Resolved(Ok(vec![SECOND, FIRST]))).unwrap();
    assert_eq!(resolved.report, Some(Diagnostic::PeerResolved(SECOND)));
    assert_eq!(endpoint.phase, Phase::Binding { peer: SECOND });
    let bound = endpoint.step(Event::Bound(Ok(()))).unwrap();
    assert_eq!(bound.action, Action::Transmit { message: "message", dest: SECOND, port: 9932 });
}

#[test]
fn select_peer_takes_the_first_candidate() {
    assert_eq!(select_peer(&Ok(vec![FIRST])), Ok(FIRST));
    assert_eq!(select_peer(&Ok(vec![SECOND, FIRST])), Ok(SECOND));
    assert_eq!(select_peer(&Ok(vec![FIRST, SECOND, SECOND])), Ok(FIRST));
}

#[test]
fn select_peer_fails_without_a_candidate() {
    assert_eq!(select_peer(&Ok(vec![])), Err(Fatal::NoCandidates));
    assert_eq!(
        select_peer(&Err(ResolveError::InvalidName)),
        Err(Fatal::ResolveFailed(ResolveError::InvalidName))
    );
    assert_eq!(
        select_peer(&Err(ResolveError::NameTooLong)),
        Err(Fatal::ResolveFailed(ResolveError::NameTooLong))
    );
    assert_eq!(
        select_peer(&Err(ResolveError::Failed)),
        Err(Fatal::ResolveFailed(ResolveError::Failed))
    );
}

#[test]
fn a_channel_that_cannot_be_bound_is_fatal() {
    for error in [BindError::InvalidState, BindError::NoRoute] {
        let mut endpoint = Endpoint::new(Settings::reference());
        endpoint.step(Event::Started).unwrap();
        endpoint.step(Event::JoinFinished(Ok(()))).unwrap();
        endpoint.step(Event::AddressPolled(AddressState::Configured(ADDRESS))).unwrap();
        endpoint.step(Event::Resolved(Ok(vec![FIRST]))).unwrap();
        let end = endpoint.step(Event::Bound(Err(error))).unwrap();
        assert_eq!(end.report, Some(Diagnostic::BindFailed(error)));
        assert_eq!(end.action, Action::Halt { cause: Fatal::BindFailed(error) });
        assert_eq!(endpoint.phase, Phase::Halted { cause: Fatal::BindFailed(error) });
        assert_eq!(endpoint.step(Event::SendFinished(Ok(()))), None);
    }
}

#[test]
fn actions_carry_the_configured_values() {
    let settings = Settings {
        network: "lab",
        passphrase: "correct horse",
        peer_name: "collector.local",
        peer_port: 5005,
        local_port: 5006,
        message: "ping",
        poll_interval_ms: 250,
        hold_ms: 40,
        join_retries: Limit::AtMost(3),
        address_repolls: Limit::AtMost(3),
    };
    let on = IndicatorState { local: true, radio: false };
    let off = IndicatorState { local: false, radio: true };
    let mut endpoint = Endpoint::new(settings);
    let mut asked = Vec::new();
    for event in [
        Event::Started,
        Event::JoinFinished(Err(JoinError { status: 1 })),
        Event::JoinFinished(Ok(())),
        Event::AddressPolled(AddressState::Unconfigured),
        Event::AddressPolled(AddressState::Configured(ADDRESS)),
        Event::Resolved(Ok(vec![FIRST])),
        Event::Bound(Ok(())),
        Event::SendFinished(Err(SendError::NotBound)),
        Event::HoldElapsed,
        Event::HoldElapsed,
    ] {
        asked.push(endpoint.step(event).unwrap().action);
    }
    assert_eq!(
        asked,
        vec![
            Action::Join { network: "lab", passphrase: "correct horse" },
            Action::Join { network: "lab", passphrase: "correct horse" },
            Action::PollAddress { delay_ms: 0 },
            Action::PollAddress { delay_ms: 250 },
            Action::Resolve { hostname: "collector.local" },
            Action::Bind { port: 5006 },
            Action::Transmit { message: "ping", dest: FIRST, port: 5005 },
            Action::Indicate { levels: on, hold_ms: 40 },
            Action::Indicate { levels: off, hold_ms: 40 },
            Action::Transmit { message: "ping", dest: FIRST, port: 5005 },
        ]
    );
    assert_eq!(endpoint.settings, settings);
}

#[test]
fn limit_spend_counts_down_to_nothing() {
    assert_eq!(Limit::Unbounded.spend(), Some(Limit::Unbounded));
    assert_eq!(Limit::AtMost(3).spend(), Some(Limit::AtMost(2)));
    assert_eq!(Limit::AtMost(1).spend(), Some(Limit::AtMost(0)));
    assert_eq!(Limit::AtMost(0).spend(), None);
    assert_eq!(Limit::AtMost(u32::MAX).spend(), Some(Limit::AtMost(u32::MAX - 1)));
}
