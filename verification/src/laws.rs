//! What holds of every run of the endpoint: of the states that a run passes
//! through and of the actions it asks for.

use crate::diag::Severity;
use crate::heartbeat::first_pattern;
use crate::heartbeat::second_pattern;
use crate::machine::Action;
use crate::machine::Endpoint;
use crate::machine::Event;
use crate::machine::Phase;
use crate::netsetup::Settings;
use crate::trace::actions;
use crate::trace::count;
use crate::trace::lemma_count_in_two_parts;
use crate::trace::lemma_count_one_more;
use crate::trace::lemma_run_in_two_parts;
use crate::trace::lemma_run_keeps_wf;
use crate::trace::lemma_run_one_more;
use crate::trace::run;
use crate::trace::ActionKind;
use crate::types::AddressState;
use crate::types::JoinError;
use crate::types::LinkState;
use crate::types::PeerAddress;
use crate::types::SendError;
use vstd::prelude::*;

verus! {

/// The link never goes back: from an associated endpoint every event leads to
/// an associated endpoint.
pub proof fn lemma_link_never_reverts(state: Endpoint, event: Event)
    requires
        state.link == LinkState::Associated,
    ensures
        state.state_after(event).link == LinkState::Associated,
{
}

/// An associated endpoint makes no further join attempt.
pub proof fn lemma_no_join_once_associated(state: Endpoint, event: Event)
    requires
        state.wf(),
        state.link == LinkState::Associated,
    ensures
        !(state.action_after(event) matches Some(Action::Join { .. })),
{
}

/// In a run from the initial state the link goes from disconnected to
/// associated at most once: once it is associated after `i` events, it is
/// associated after any `j >= i` events, and the event that follows asks for
/// no join.
pub proof fn lemma_link_associates_once(settings: Settings, events: Seq<Event>, i: int, j: int)
    requires
        0 <= i <= j <= events.len(),
        run(Endpoint::initial(settings), events.take(i)).link == LinkState::Associated,
    ensures
        run(Endpoint::initial(settings), events.take(j)).link == LinkState::Associated,
        j < events.len() ==> !(run(Endpoint::initial(settings), events.take(j)).action_after(
            events[j],
        ) matches Some(Action::Join { .. })),
    decreases j - i,
{
    let start = Endpoint::initial(settings);
    if i < j {
        lemma_link_associates_once(settings, events, i, j - 1);
        assert(events.take(j).drop_last() =~= events.take(j - 1));
        lemma_link_never_reverts(run(start, events.take(j - 1)), events[j - 1]);
    }
    if j < events.len() {
        lemma_run_keeps_wf(start, events.take(j));
        lemma_no_join_once_associated(run(start, events.take(j)), events[j]);
    }
}

/// The script of a join that fails with the given errors, one attempt after
/// the other, and then succeeds.
pub open spec fn join_script(failures: Seq<JoinError>) -> Seq<Event> {
    seq![Event::Started] + Seq::new(
        failures.len(),
        |i: int| Event::JoinFinished(Err(failures[i])),
    ) + seq![Event::JoinFinished(Ok(()))]
}

/// A join that succeeds after any number of failures that the settings allow
/// for: the link stays disconnected through every failure and is associated
/// at the end, one join is asked for at the start and one more after each
/// failure, and the success is answered with the first look at the address.
pub proof fn lemma_join_until_success(settings: Settings, failures: Seq<JoinError>)
    requires
        settings.join_retries.covers(failures.len()),
    ensures
        ({
            let start = Endpoint::initial(settings);
            let script = join_script(failures);
            &&& forall|k: int|
                0 <= k < script.len() ==> (#[trigger] run(start, script.take(k))).link
                    == LinkState::Disconnected
            &&& run(start, script).link == LinkState::Associated
            &&& run(start, script).phase is AwaitingAddress
            &&& actions(start, script) == Seq::new(
                failures.len() + 1,
                |i: int| settings.join_action(),
            ).push(Action::PollAddress { delay_ms: 0 })
            &&& count(actions(start, script), ActionKind::Join) == failures.len() + 1
        }),
{
    let start = Endpoint::initial(settings);
    let script = join_script(failures);
    let attempts = script.drop_last();
    lemma_failed_joins(settings, failures, failures.len() as int);
    assert(attempts.take(failures.len() as int + 1) =~= attempts);
    assert forall|k: int| 0 <= k < script.len() implies (#[trigger] run(
        start,
        script.take(k),
    )).link == LinkState::Disconnected by {
        if k > 0 {
            lemma_failed_joins(settings, failures, k - 1);
            assert(script.take(k) =~= attempts.take(k));
        }
    }
    let joins = Seq::new(failures.len() + 1, |i: int| settings.join_action());
    lemma_count_all_joins(settings, failures.len() + 1);
    assert(joins.push(Action::PollAddress { delay_ms: 0 }).drop_last() =~= joins);
}

/// After the start and `k` failed joins the endpoint is still joining, with
/// `k` retries spent, and has asked for `k + 1` joins.
proof fn lemma_failed_joins(settings: Settings, failures: Seq<JoinError>, k: int)
    requires
        settings.join_retries.covers(failures.len()),
        0 <= k <= failures.len(),
    ensures
        ({
            let start = Endpoint::initial(settings);
            let attempts = join_script(failures).drop_last().take(k + 1);
            let state = run(start, attempts);
            &&& state.link == LinkState::Disconnected
            &&& state.settings == settings
            &&& state.phase matches Phase::Joining { retries_left }
            &&& retries_left.covers((failures.len() - k) as nat)
            &&& actions(start, attempts) == Seq::new(
                (k + 1) as nat,
                |i: int| settings.join_action(),
            )
        }),
    decreases k,
{
    let start = Endpoint::initial(settings);
    let all = join_script(failures).drop_last();
    let attempts = all.take(k + 1);
    if k == 0 {
        let none = Seq::<Event>::empty();
        assert(attempts =~= none.push(Event::Started));
        lemma_run_one_more(start, none, Event::Started);
        assert(actions(start, attempts) =~= Seq::new(1, |i: int| settings.join_action()));
    } else {
        lemma_failed_joins(settings, failures, k - 1);
        let failed = Event::JoinFinished(Err(failures[k - 1]));
        assert(attempts =~= all.take(k).push(failed));
        lemma_run_one_more(start, all.take(k), failed);
        assert(actions(start, attempts) =~= Seq::new(
            (k + 1) as nat,
            |i: int| settings.join_action(),
        ));
    }
}

/// A sequence of `n` joins counts `n` joins.
proof fn lemma_count_all_joins(settings: Settings, n: nat)
    ensures
        count(Seq::new(n, |i: int| settings.join_action()), ActionKind::Join) == n,
    decreases n,
{
    let joins = Seq::new(n, |i: int| settings.join_action());
    if n > 0 {
        lemma_count_all_joins(settings, (n - 1) as nat);
        assert(joins.drop_last() =~= Seq::new((n - 1) as nat, |i: int| settings.join_action()));
    }
}

/// The name query is only ever asked for in answer to a look that found the
/// address configured, and the endpoint records that address.
pub proof fn lemma_resolve_follows_configuration(state: Endpoint, event: Event)
    requires
        state.action_after(event) matches Some(Action::Resolve { .. }),
    ensures
        event matches Event::AddressPolled(observed) && observed is Configured
            && state.state_after(event).address == observed,
{
}

/// In every state of a run from the initial state, the address is configured
/// if the name query has been asked for.
pub proof fn lemma_configured_before_resolve(settings: Settings, events: Seq<Event>)
    ensures
        run(Endpoint::initial(settings), events).phase.resolve_issued() ==> run(
            Endpoint::initial(settings),
            events,
        ).address is Configured,
{
    lemma_run_keeps_wf(Endpoint::initial(settings), events);
}

/// In a run from the initial state the name query is asked for at most once,
/// and so is the binding of the channel, whatever the events are: each has
/// been asked for once if the run has come that far, and never otherwise.
pub proof fn lemma_resolve_at_most_once(settings: Settings, events: Seq<Event>)
    ensures
        count(actions(Endpoint::initial(settings), events), ActionKind::Resolve) == if run(
            Endpoint::initial(settings),
            events,
        ).phase.resolve_issued() {
            1nat
        } else {
            0nat
        },
        count(actions(Endpoint::initial(settings), events), ActionKind::Bind) == if run(
            Endpoint::initial(settings),
            events,
        ).phase.bind_issued() {
            1nat
        } else {
            0nat
        },
        count(actions(Endpoint::initial(settings), events), ActionKind::Resolve) <= 1,
        count(actions(Endpoint::initial(settings), events), ActionKind::Bind) <= 1,
    decreases events.len(),
{
    let start = Endpoint::initial(settings);
    if events.len() > 0 {
        let earlier = events.drop_last();
        lemma_resolve_at_most_once(settings, earlier);
        assert(earlier.push(events.last()) =~= events);
        lemma_run_one_more(start, earlier, events.last());
        match run(start, earlier).action_after(events.last()) {
            Some(action) => {
                lemma_count_one_more(actions(start, earlier), action, ActionKind::Resolve);
                lemma_count_one_more(actions(start, earlier), action, ActionKind::Bind);
            },
            None => {},
        }
    }
}

/// The address is never made up: it only changes to what a look at the
/// network stack has found, and once it is configured it stays as it is.
pub proof fn lemma_address_is_only_observed(state: Endpoint, event: Event)
    ensures
        state.state_after(event).address != state.address ==> (event matches Event::AddressPolled(
            observed,
        ) && state.state_after(event).address == observed),
        state.wf() && state.address is Configured ==> state.state_after(event).address
            == state.address,
{
}

/// A datagram only ever goes to the peer that the resolution settled on: the
/// endpoint knew the peer before, and the channel had been asked to bind.
pub proof fn lemma_transmit_goes_to_the_peer(state: Endpoint, event: Event)
    requires
        state.action_after(event) matches Some(Action::Transmit { .. }),
    ensures
        state.action_after(event) == Some(
            state.settings.transmit_action(state.phase.peer()->Some_0),
        ),
        state.phase.peer() is Some,
        state.phase.bind_issued(),
        state.state_after(event).phase == (Phase::Transmitting {
            peer: state.phase.peer()->Some_0,
        }),
{
}

/// In a run from the initial state no datagram is sent before the set-up is
/// complete: if one has been asked for, the link is associated, the address
/// is configured, and the name query and the binding of the channel have
/// each been asked for exactly once.
pub proof fn lemma_transmit_follows_setup(settings: Settings, events: Seq<Event>)
    requires
        count(actions(Endpoint::initial(settings), events), ActionKind::Transmit) > 0,
    ensures
        run(Endpoint::initial(settings), events).phase.in_heartbeat(),
        run(Endpoint::initial(settings), events).link == LinkState::Associated,
        run(Endpoint::initial(settings), events).address is Configured,
        count(actions(Endpoint::initial(settings), events), ActionKind::Resolve) == 1,
        count(actions(Endpoint::initial(settings), events), ActionKind::Bind) == 1,
{
    lemma_transmit_needs_heartbeat(settings, events);
    lemma_run_keeps_wf(Endpoint::initial(settings), events);
    lemma_resolve_at_most_once(settings, events);
}

/// A run from the initial state that is not in the heartbeat loop has asked
/// for no datagram.
proof fn lemma_transmit_needs_heartbeat(settings: Settings, events: Seq<Event>)
    ensures
        !run(Endpoint::initial(settings), events).phase.in_heartbeat() ==> count(
            actions(Endpoint::initial(settings), events),
            ActionKind::Transmit,
        ) == 0,
    decreases events.len(),
{
    let start = Endpoint::initial(settings);
    if events.len() > 0 {
        let earlier = events.drop_last();
        lemma_transmit_needs_heartbeat(settings, earlier);
        assert(earlier.push(events.last()) =~= events);
        lemma_run_one_more(start, earlier, events.last());
        if run(start, earlier).phase.in_heartbeat() {
            lemma_heartbeat_never_ends(run(start, earlier), events.last());
        }
        match run(start, earlier).action_after(events.last()) {
            Some(action) => {
                lemma_count_one_more(actions(start, earlier), action, ActionKind::Transmit);
            },
            None => {},
        }
    }
}

/// Within a period the indicators follow the datagram: the first pattern is
/// only ever shown in answer to the outcome of a transmit attempt, and the
/// second only after the first has been held.
pub proof fn lemma_indicators_follow_transmit(state: Endpoint, event: Event)
    requires
        state.action_after(event) matches Some(Action::Indicate { .. }),
    ensures
        state.action_after(event)->Some_0->levels == first_pattern() ==> state.phase
            is Transmitting && event is SendFinished,
        state.action_after(event)->Some_0->levels == second_pattern() ==> state.phase
            is HoldingOn && event is HoldElapsed,
        state.action_after(event)->Some_0->levels == first_pattern() || state.action_after(
            event,
        )->Some_0->levels == second_pattern(),
        state.state_after(event).indicators == state.action_after(event)->Some_0->levels,
{
}

/// The events of one heartbeat period: `opening` is what lets the period
/// begin, then the datagram is dealt with, then the first hold passes. The
/// second hold is under way when the period's events are over.
pub open spec fn period_events(opening: Event, outcome: Result<(), SendError>) -> Seq<Event> {
    seq![opening, Event::SendFinished(outcome), Event::HoldElapsed]
}

/// The events of heartbeat periods that follow one another, one period for
/// each outcome: each begins when the second hold of the period before has
/// passed.
pub open spec fn heartbeat_events(outcomes: Seq<Result<(), SendError>>) -> Seq<Event>
    decreases outcomes.len(),
{
    if outcomes.len() == 0 {
        Seq::empty()
    } else {
        heartbeat_events(outcomes.drop_last()) + period_events(
            Event::HoldElapsed,
            outcomes.last(),
        )
    }
}

/// The events of the first heartbeat periods, one period for each outcome:
/// the first of them begins when the channel is bound.
pub open spec fn first_heartbeat_events(outcomes: Seq<Result<(), SendError>>) -> Seq<Event>
    recommends
        outcomes.len() > 0,
{
    period_events(Event::Bound(Ok(())), outcomes.first()) + heartbeat_events(
        outcomes.drop_first(),
    )
}

/// The actions of one heartbeat period: the datagram, the first pattern,
/// the second pattern.
pub open spec fn period_actions(settings: Settings, peer: PeerAddress) -> Seq<Action> {
    seq![
        settings.transmit_action(peer),
        settings.indicate_action(first_pattern()),
        settings.indicate_action(second_pattern()),
    ]
}

/// The actions of `n` heartbeat periods.
pub open spec fn heartbeat_actions(settings: Settings, peer: PeerAddress, n: nat) -> Seq<Action>
    decreases n,
{
    if n == 0 {
        Seq::empty()
    } else {
        heartbeat_actions(settings, peer, (n - 1) as nat) + period_actions(settings, peer)
    }
}

/// Over any number of heartbeat periods, with any outcomes of the transmit
/// attempts: the endpoint asks for the same actions whatever the outcomes
/// are, exactly one datagram and one pair of indicator patterns in each
/// period, and ends where it began, in the second hold with the same peer.
pub proof fn lemma_heartbeat_periods(
    state: Endpoint,
    peer: PeerAddress,
    outcomes: Seq<Result<(), SendError>>,
)
    requires
        state.phase == (Phase::HoldingOff { peer }),
    ensures
        ({
            let n = outcomes.len();
            let script = heartbeat_events(outcomes);
            &&& script.len() == 3 * n
            &&& run(state, script) == if n == 0 {
                state
            } else {
                Endpoint { indicators: second_pattern(), ..state }
            }
            &&& state.wf() ==> run(state, script) == state
            &&& actions(state, script) == heartbeat_actions(state.settings, peer, n)
            &&& count(actions(state, script), ActionKind::Transmit) == n
            &&& count(actions(state, script), ActionKind::Indicate) == 2 * n
            &&& count(actions(state, script), ActionKind::Halt) == 0
        }),
    decreases outcomes.len(),
{
    let n = outcomes.len();
    if n > 0 {
        let earlier = heartbeat_events(outcomes.drop_last());
        let period = period_events(Event::HoldElapsed, outcomes.last());
        lemma_heartbeat_periods(state, peer, outcomes.drop_last());
        lemma_run_in_two_parts(state, earlier, period);
        lemma_one_period(run(state, earlier), peer, Event::HoldElapsed, outcomes.last());
        lemma_count_heartbeat(state.settings, peer, n);
    }
}

/// The first heartbeat periods, from where the channel is being bound: as
/// many datagrams and pairs of indicator patterns as periods, whatever the
/// outcomes are.
pub proof fn lemma_first_heartbeat_periods(
    state: Endpoint,
    peer: PeerAddress,
    outcomes: Seq<Result<(), SendError>>,
)
    requires
        state.phase == (Phase::Binding { peer }),
        outcomes.len() > 0,
    ensures
        ({
            let n = outcomes.len();
            let script = first_heartbeat_events(outcomes);
            &&& script.len() == 3 * n
            &&& run(state, script) == Endpoint {
                phase: Phase::HoldingOff { peer },
                indicators: second_pattern(),
                ..state
            }
            &&& actions(state, script) == heartbeat_actions(state.settings, peer, n)
            &&& count(actions(state, script), ActionKind::Transmit) == n
            &&& count(actions(state, script), ActionKind::Indicate) == 2 * n
            &&& count(actions(state, script), ActionKind::Halt) == 0
        }),
{
    let n = outcomes.len();
    let first = period_events(Event::Bound(Ok(())), outcomes.first());
    let rest = heartbeat_events(outcomes.drop_first());
    lemma_one_period(state, peer, Event::Bound(Ok(())), outcomes.first());
    lemma_run_in_two_parts(state, first, rest);
    lemma_heartbeat_periods(run(state, first), peer, outcomes.drop_first());
    lemma_periods_from_the_front(state.settings, peer, n);
    lemma_count_heartbeat(state.settings, peer, n);
}

/// One heartbeat period, from the binding of the channel or from the second
/// hold of the period before.
proof fn lemma_one_period(
    state: Endpoint,
    peer: PeerAddress,
    opening: Event,
    outcome: Result<(), SendError>,
)
    requires
        state.phase == (Phase::Binding { peer }) && opening == Event::Bound(Ok(()))
            || state.phase == (Phase::HoldingOff { peer }) && opening == Event::HoldElapsed,
    ensures
        run(state, period_events(opening, outcome)) == (Endpoint {
            phase: Phase::HoldingOff { peer },
            indicators: second_pattern(),
            ..state
        }),
        actions(state, period_events(opening, outcome)) == period_actions(state.settings, peer),
{
    let none = Seq::<Event>::empty();
    let one = none.push(opening);
    let two = one.push(Event::SendFinished(outcome));
    let three = two.push(Event::HoldElapsed);
    lemma_run_one_more(state, none, opening);
    lemma_run_one_more(state, one, Event::SendFinished(outcome));
    lemma_run_one_more(state, two, Event::HoldElapsed);
    assert(three =~= period_events(opening, outcome));
    assert(actions(state, three) =~= period_actions(state.settings, peer));
}

/// The actions of `n` periods are those of one period followed by those of
/// `n - 1` periods.
proof fn lemma_periods_from_the_front(settings: Settings, peer: PeerAddress, n: nat)
    requires
        n > 0,
    ensures
        heartbeat_actions(settings, peer, n) == period_actions(settings, peer) + heartbeat_actions(
            settings,
            peer,
            (n - 1) as nat,
        ),
    decreases n,
{
    let period = period_actions(settings, peer);
    if n == 1 {
        assert(heartbeat_actions(settings, peer, 0) + period =~= period + heartbeat_actions(
            settings,
            peer,
            0,
        ));
    } else {
        lemma_periods_from_the_front(settings, peer, (n - 1) as nat);
        let inner = heartbeat_actions(settings, peer, (n - 2) as nat);
        assert((period + inner) + period =~= period + (inner + period));
    }
}

/// The actions of `n` periods hold `n` datagrams, `2 n` indicator patterns
/// and no halt.
proof fn lemma_count_heartbeat(settings: Settings, peer: PeerAddress, n: nat)
    ensures
        count(heartbeat_actions(settings, peer, n), ActionKind::Transmit) == n,
        count(heartbeat_actions(settings, peer, n), ActionKind::Indicate) == 2 * n,
        count(heartbeat_actions(settings, peer, n), ActionKind::Halt) == 0,
    decreases n,
{
    if n > 0 {
        let earlier = heartbeat_actions(settings, peer, (n - 1) as nat);
        let period = period_actions(settings, peer);
        lemma_count_heartbeat(settings, peer, (n - 1) as nat);
        lemma_count_in_two_parts(earlier, period, ActionKind::Transmit);
        lemma_count_in_two_parts(earlier, period, ActionKind::Indicate);
        lemma_count_in_two_parts(earlier, period, ActionKind::Halt);
        let none = Seq::<Action>::empty();
        let one = none.push(settings.transmit_action(peer));
        let two = one.push(settings.indicate_action(first_pattern()));
        let three = two.push(settings.indicate_action(second_pattern()));
        assert(three =~= period);
        lemma_count_one_more(none, settings.transmit_action(peer), ActionKind::Transmit);
        lemma_count_one_more(one, settings.indicate_action(first_pattern()), ActionKind::Transmit);
        lemma_count_one_more(two, settings.indicate_action(second_pattern()), ActionKind::Transmit);
        lemma_count_one_more(none, settings.transmit_action(peer), ActionKind::Indicate);
        lemma_count_one_more(one, settings.indicate_action(first_pattern()), ActionKind::Indicate);
        lemma_count_one_more(two, settings.indicate_action(second_pattern()), ActionKind::Indicate);
        lemma_count_one_more(none, settings.transmit_action(peer), ActionKind::Halt);
        lemma_count_one_more(one, settings.indicate_action(first_pattern()), ActionKind::Halt);
        lemma_count_one_more(two, settings.indicate_action(second_pattern()), ActionKind::Halt);
    }
}

/// Nothing ends the heartbeat loop: from a heartbeat phase every event, and
/// so every outcome of a transmit attempt, leads to a heartbeat phase with
/// the same peer, and never to a halt.
pub proof fn lemma_heartbeat_never_ends(state: Endpoint, event: Event)
    requires
        state.phase.in_heartbeat(),
    ensures
        state.state_after(event).phase.in_heartbeat(),
        state.state_after(event).phase.peer() == state.phase.peer(),
        !(state.action_after(event) matches Some(Action::Halt { .. })),
{
}

/// A failed transmit attempt is passed over: for both errors the loop goes
/// on with the first indicator pattern, exactly as after a success.
pub proof fn lemma_send_errors_are_passed_over(state: Endpoint, peer: PeerAddress, error: SendError)
    requires
        state.phase == (Phase::Transmitting { peer }),
    ensures
        state.state_after(Event::SendFinished(Err(error))) == state.state_after(
            Event::SendFinished(Ok(())),
        ),
        state.action_after(Event::SendFinished(Err(error))) == Some(
            state.settings.indicate_action(first_pattern()),
        ),
        state.action_after(Event::SendFinished(Ok(()))) == Some(
            state.settings.indicate_action(first_pattern()),
        ),
{
}

/// Once the heartbeat loop runs it runs for good, with the peer it started
/// with, whatever the events are.
pub proof fn lemma_heartbeat_runs_for_good(state: Endpoint, events: Seq<Event>)
    requires
        state.phase.in_heartbeat(),
    ensures
        run(state, events).phase.in_heartbeat(),
        run(state, events).phase.peer() == state.phase.peer(),
        count(actions(state, events), ActionKind::Halt) == 0,
        count(actions(state, events), ActionKind::Join) == 0,
        count(actions(state, events), ActionKind::Resolve) == 0,
        count(actions(state, events), ActionKind::Bind) == 0,
    decreases events.len(),
{
    if events.len() > 0 {
        let earlier = events.drop_last();
        lemma_heartbeat_runs_for_good(state, earlier);
        lemma_heartbeat_never_ends(run(state, earlier), events.last());
        assert(earlier.push(events.last()) =~= events);
        lemma_run_one_more(state, earlier, events.last());
        match run(state, earlier).action_after(events.last()) {
            Some(action) => {
                lemma_count_one_more(actions(state, earlier), action, ActionKind::Halt);
                lemma_count_one_more(actions(state, earlier), action, ActionKind::Join);
                lemma_count_one_more(actions(state, earlier), action, ActionKind::Resolve);
                lemma_count_one_more(actions(state, earlier), action, ActionKind::Bind);
            },
            None => {},
        }
    }
}

/// A report that ends the program is always logged as an error, and the
/// endpoint halts with exactly such a report.
pub proof fn lemma_halt_is_reported_as_error(state: Endpoint, event: Event)
    ensures
        match state.next(event) {
            Some((_, directive)) => {
                &&& directive.action is Halt <==> (directive.report matches Some(report)
                    && report.fatal())
                &&& directive.action is Halt ==> directive.report->Some_0.severity_of()
                    == Severity::Error
                &&& directive.action is Halt <==> state.state_after(event).phase is Halted
            },
            None => true,
        },
{
}

} // verus!
