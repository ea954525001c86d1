//! Runs: the endpoint fed with a script of events, one after the other.

use crate::machine::Action;
use crate::machine::Endpoint;
use crate::machine::Event;
use vstd::prelude::*;

verus! {

/// The kinds of action, for counting.
pub enum ActionKind {
    Join,
    PollAddress,
    Resolve,
    Bind,
    Transmit,
    Indicate,
    Halt,
}

impl Action {
    /// The kind of the action, whatever it carries.
    pub open spec fn kind(self) -> ActionKind {
        match self {
            Action::Join { .. } => ActionKind::Join,
            Action::PollAddress { .. } => ActionKind::PollAddress,
            Action::Resolve { .. } => ActionKind::Resolve,
            Action::Bind { .. } => ActionKind::Bind,
            Action::Transmit { .. } => ActionKind::Transmit,
            Action::Indicate { .. } => ActionKind::Indicate,
            Action::Halt { .. } => ActionKind::Halt,
        }
    }
}

/// The state that the endpoint is in after a script of events.
pub open spec fn run(start: Endpoint, events: Seq<Event>) -> Endpoint
    decreases events.len(),
{
    if events.len() == 0 {
        start
    } else {
        run(start, events.drop_last()).state_after(events.last())
    }
}

/// The actions that the endpoint asks for during a script of events, in
/// order. An event that leads nowhere asks for nothing.
pub open spec fn actions(start: Endpoint, events: Seq<Event>) -> Seq<Action>
    decreases events.len(),
{
    if events.len() == 0 {
        Seq::empty()
    } else {
        let before = actions(start, events.drop_last());
        match run(start, events.drop_last()).action_after(events.last()) {
            Some(action) => before.push(action),
            None => before,
        }
    }
}

/// How many of the actions are of the given kind.
pub open spec fn count(actions: Seq<Action>, kind: ActionKind) -> nat
    decreases actions.len(),
{
    if actions.len() == 0 {
        0
    } else {
        count(actions.drop_last(), kind) + if actions.last().kind() == kind {
            1nat
        } else {
            0nat
        }
    }
}

/// One more event at the end of a script takes one more step.
pub proof fn lemma_run_one_more(start: Endpoint, events: Seq<Event>, event: Event)
    ensures
        run(start, events.push(event)) == run(start, events).state_after(event),
        actions(start, events.push(event)) == match run(start, events).action_after(event) {
            Some(action) => actions(start, events).push(action),
            None => actions(start, events),
        },
{
    assert(events.push(event).drop_last() =~= events);
}

/// One more action at the end counts once if it is of the kind.
pub proof fn lemma_count_one_more(actions: Seq<Action>, action: Action, kind: ActionKind)
    ensures
        count(actions.push(action), kind) == count(actions, kind) + if action.kind() == kind {
            1nat
        } else {
            0nat
        },
{
    assert(actions.push(action).drop_last() =~= actions);
}

/// A run over two scripts in a row is the run over the first followed by the
/// run over the second from where the first ended.
pub proof fn lemma_run_in_two_parts(start: Endpoint, first: Seq<Event>, second: Seq<Event>)
    ensures
        run(start, first + second) == run(run(start, first), second),
        actions(start, first + second) == actions(start, first) + actions(
            run(start, first),
            second,
        ),
    decreases second.len(),
{
    if second.len() == 0 {
        assert(first + second =~= first);
        assert(actions(start, first) + Seq::<Action>::empty() =~= actions(start, first));
    } else {
        lemma_run_in_two_parts(start, first, second.drop_last());
        assert((first + second).drop_last() =~= first + second.drop_last());
        assert((first + second).last() == second.last());
        let before = actions(start, first);
        let middle = actions(run(start, first), second.drop_last());
        match run(run(start, first), second.drop_last()).action_after(second.last()) {
            Some(action) => {
                assert((before + middle).push(action) =~= before + middle.push(action));
            },
            None => {},
        }
    }
}

/// Counting over two sequences in a row adds up.
pub proof fn lemma_count_in_two_parts(first: Seq<Action>, second: Seq<Action>, kind: ActionKind)
    ensures
        count(first + second, kind) == count(first, kind) + count(second, kind),
    decreases second.len(),
{
    if second.len() == 0 {
        assert(first + second =~= first);
    } else {
        lemma_count_in_two_parts(first, second.drop_last(), kind);
        assert((first + second).drop_last() =~= first + second.drop_last());
        assert((first + second).last() == second.last());
    }
}

/// Every state of a run from a state that hangs together hangs together.
pub proof fn lemma_run_keeps_wf(start: Endpoint, events: Seq<Event>)
    requires
        start.wf(),
    ensures
        run(start, events).wf(),
    decreases events.len(),
{
    if events.len() > 0 {
        lemma_run_keeps_wf(start, events.drop_last());
    }
}

} // verus!
