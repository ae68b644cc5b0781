//! One-shot reconciliation of a desired module configuration against the
//! module's live configuration: read, compare, apply, verify, report.
//!
//! The protocol is modelled as an explicit state machine. The surrounding
//! application owns the driver and the transport; it asks [`next_action`]
//! what to perform, performs it, and feeds the result back through
//! [`step`]. Every decision the protocol makes is therefore a verified
//! function from state and event to the next state.
//!
//! The protocol's asymmetry is deliberate: a failed driver call is fatal,
//! while a successful write whose read-back does not match the desired
//! configuration is reported as unconfirmed but is not a failure.

use vstd::prelude::*;

use crate::params::Parameters;

verus! {

/// Terminal report of one reconciliation pass.
#[derive(Clone, Copy, Debug, PartialEq, Eq, Structural)]
pub enum Outcome {
    /// The observed configuration already equalled the desired one;
    /// nothing was written.
    Unchanged,
    /// The desired configuration was written and the read-back confirmed
    /// it.
    Applied,
    /// The desired configuration was written but the read-back differed;
    /// reported as a warning, not as a failure.
    AppliedUnconfirmed,
}

/// Protocol stage at which a driver call failed fatally.
#[derive(Clone, Copy, Debug, PartialEq, Eq, Structural)]
pub enum Stage {
    /// Reading the observed configuration failed.
    ReadObserved,
    /// Writing the desired configuration failed.
    Apply,
    /// Re-reading the configuration after the write failed.
    ReadBack,
}

/// State of one reconciliation pass.
#[derive(Clone, Copy, Debug, PartialEq, Eq, Structural)]
pub enum State {
    /// Waiting for the observed configuration to be read.
    ReadingObserved,
    /// The observed configuration differed; waiting for the desired one
    /// to be written.
    Applying,
    /// The write succeeded; waiting for the configuration to be re-read.
    Verifying,
    /// Terminal: the pass completed with the given report.
    Done(Outcome),
    /// Terminal: a driver call failed at the given stage.
    Failed(Stage),
}

/// Result of one driver operation, handed back to the protocol.
#[derive(Clone, Copy, Debug, PartialEq, Eq, Structural)]
pub enum Event {
    /// A configuration read returned these parameters.
    ParametersRead(Parameters),
    /// A configuration read failed.
    ReadFailed,
    /// The parameter write succeeded.
    WriteOk,
    /// The parameter write failed.
    WriteFailed,
}

/// Driver operation that the surrounding application must perform next.
#[derive(Clone, Copy, Debug, PartialEq, Eq, Structural)]
pub enum Action {
    /// Read the module's current configuration.
    ReadParameters,
    /// Write the desired configuration, with the requested persistence.
    ApplyParameters,
    /// The pass is over; perform nothing further.
    Stop,
}

/// The state a reconciliation pass starts in.
pub open spec fn initial_spec() -> State {
    State::ReadingObserved
}

/// Start a reconciliation pass.
pub fn initial() -> (s: State)
    ensures
        s == initial_spec(),
{
    State::ReadingObserved
}

/// The operation owed in a state.
pub open spec fn action_spec(s: State) -> Action {
    match s {
        State::ReadingObserved => Action::ReadParameters,
        State::Applying => Action::ApplyParameters,
        State::Verifying => Action::ReadParameters,
        State::Done(_) => Action::Stop,
        State::Failed(_) => Action::Stop,
    }
}

/// A state in which the pass is over.
pub open spec fn is_terminal(s: State) -> bool {
    action_spec(s) == Action::Stop
}

/// Which operation the surrounding application must perform next.
pub fn next_action(s: &State) -> (a: Action)
    ensures
        a == action_spec(*s),
{
    match s {
        State::ReadingObserved => Action::ReadParameters,
        State::Applying => Action::ApplyParameters,
        State::Verifying => Action::ReadParameters,
        State::Done(_) => Action::Stop,
        State::Failed(_) => Action::Stop,
    }
}

/// The protocol's whole decision logic: the state after answering the
/// state's action with an event. An event that does not answer the
/// pending action leaves the state unchanged.
pub open spec fn step_spec(desired: Parameters, s: State, e: Event) -> State {
    match s {
        State::ReadingObserved => match e {
            Event::ParametersRead(observed) => if observed == desired {
                State::Done(Outcome::Unchanged)
            } else {
                State::Applying
            },
            Event::ReadFailed => State::Failed(Stage::ReadObserved),
            _ => s,
        },
        State::Applying => match e {
            Event::WriteOk => State::Verifying,
            Event::WriteFailed => State::Failed(Stage::Apply),
            _ => s,
        },
        State::Verifying => match e {
            Event::ParametersRead(current) => if current == desired {
                State::Done(Outcome::Applied)
            } else {
                State::Done(Outcome::AppliedUnconfirmed)
            },
            Event::ReadFailed => State::Failed(Stage::ReadBack),
            _ => s,
        },
        State::Done(_) => s,
        State::Failed(_) => s,
    }
}

/// Advance the pass by one performed operation.
pub fn step(desired: &Parameters, s: State, e: Event) -> (next: State)
    ensures
        next == step_spec(*desired, s, e),
{
    match s {
        State::ReadingObserved => match e {
            Event::ParametersRead(observed) => if observed == *desired {
                State::Done(Outcome::Unchanged)
            } else {
                State::Applying
            },
            Event::ReadFailed => State::Failed(Stage::ReadObserved),
            _ => s,
        },
        State::Applying => match e {
            Event::WriteOk => State::Verifying,
            Event::WriteFailed => State::Failed(Stage::Apply),
            _ => s,
        },
        State::Verifying => match e {
            Event::ParametersRead(current) => if current == *desired {
                State::Done(Outcome::Applied)
            } else {
                State::Done(Outcome::AppliedUnconfirmed)
            },
            Event::ReadFailed => State::Failed(Stage::ReadBack),
            _ => s,
        },
        State::Done(_) => s,
        State::Failed(_) => s,
    }
}

/// The states a pass goes through, starting from [`initial_spec`], when
/// the performed operations come back with the given events in order.
pub open spec fn run_spec(desired: Parameters, events: Seq<Event>) -> Seq<State>
    decreases events.len(),
{
    if events.len() == 0 {
        seq![initial_spec()]
    } else {
        let prefix = run_spec(desired, events.drop_last());
        prefix.push(step_spec(desired, prefix.last(), events.last()))
    }
}

/// How many module writes a run of the protocol requests: one for each
/// state whose pending action is the write.
pub open spec fn writes_requested(states: Seq<State>) -> nat
    decreases states.len(),
{
    if states.len() == 0 {
        0
    } else {
        writes_requested(states.drop_last()) + if states.last() == State::Applying {
            1nat
        } else {
            0nat
        }
    }
}

/// How many post-write re-reads a run of the protocol requests: one for
/// each state that verifies a completed write.
pub open spec fn readbacks_requested(states: Seq<State>) -> nat
    decreases states.len(),
{
    if states.len() == 0 {
        0
    } else {
        readbacks_requested(states.drop_last()) + if states.last() == State::Verifying {
            1nat
        } else {
            0nat
        }
    }
}

/// Whether an event answers the operation pending in a state. A
/// terminal state has no pending operation, so nothing answers it.
pub open spec fn answers(s: State, e: Event) -> bool {
    match action_spec(s) {
        Action::ReadParameters => e is ParametersRead || e is ReadFailed,
        Action::ApplyParameters => e is WriteOk || e is WriteFailed,
        Action::Stop => false,
    }
}

/// A run is properly driven when every event answers the operation that
/// was pending when it arrived; this is how the surrounding application
/// drives the machine.
pub open spec fn properly_driven(desired: Parameters, events: Seq<Event>) -> bool
    decreases events.len(),
{
    if events.len() == 0 {
        true
    } else {
        let prefix = events.drop_last();
        properly_driven(desired, prefix) && answers(
            run_spec(desired, prefix).last(),
            events.last(),
        )
    }
}

/// How many writes a run that has reached this state has requested.
pub open spec fn writes_for(s: State) -> nat {
    match s {
        State::ReadingObserved => 0,
        State::Applying => 1,
        State::Verifying => 1,
        State::Done(outcome) => if outcome == Outcome::Unchanged {
            0nat
        } else {
            1nat
        },
        State::Failed(stage) => if stage == Stage::ReadObserved {
            0nat
        } else {
            1nat
        },
    }
}

/// How many post-write re-reads a run that has reached this state has
/// requested.
pub open spec fn readbacks_for(s: State) -> nat {
    match s {
        State::ReadingObserved => 0,
        State::Applying => 0,
        State::Verifying => 1,
        State::Done(outcome) => if outcome == Outcome::Unchanged {
            0nat
        } else {
            1nat
        },
        State::Failed(stage) => if stage == Stage::ReadBack {
            1nat
        } else {
            0nat
        },
    }
}

/// A terminal state never moves again, whatever event arrives.
pub proof fn lemma_terminal_is_stable(desired: Parameters, s: State, e: Event)
    requires
        is_terminal(s),
    ensures
        step_spec(desired, s, e) == s,
{
}

/// In every properly driven run, however long, the number of writes and
/// of post-write re-reads requested so far is fixed by the state the run
/// has reached; in particular no run ever requests a second write or a
/// second re-read.
pub proof fn lemma_at_most_one_write(desired: Parameters, events: Seq<Event>)
    requires
        properly_driven(desired, events),
    ensures
        ({
            let states = run_spec(desired, events);
            &&& writes_requested(states) == writes_for(states.last())
            &&& readbacks_requested(states) == readbacks_for(states.last())
            &&& writes_requested(states) <= 1
            &&& readbacks_requested(states) <= 1
        }),
    decreases events.len(),
{
    let states = run_spec(desired, events);
    if events.len() == 0 {
        assert(states =~= seq![initial_spec()]);
        assert(states.drop_last() =~= Seq::<State>::empty());
        assert(writes_requested(Seq::<State>::empty()) == 0);
        assert(readbacks_requested(Seq::<State>::empty()) == 0);
    } else {
        let prefix_events = events.drop_last();
        lemma_at_most_one_write(desired, prefix_events);
        let prefix = run_spec(desired, prefix_events);
        assert(states == prefix.push(step_spec(desired, prefix.last(), events.last())));
        assert(states.drop_last() =~= prefix);
        assert(states.last() == step_spec(desired, prefix.last(), events.last()));
        assert(writes_requested(states) == writes_requested(prefix) + if states.last()
            == State::Applying {
            1nat
        } else {
            0nat
        });
        assert(readbacks_requested(states) == readbacks_requested(prefix) + if states.last()
            == State::Verifying {
            1nat
        } else {
            0nat
        });
        assert(answers(prefix.last(), events.last()));
    }
}

/// A desired configuration equal to the observed one ends the pass after
/// the first read: the protocol reports `Unchanged` and requests no
/// write.
pub proof fn lemma_unchanged_requests_no_write(desired: Parameters, observed: Parameters)
    requires
        observed == desired,
    ensures
        ({
            let states = run_spec(desired, seq![Event::ParametersRead(observed)]);
            &&& states.last() == State::Done(Outcome::Unchanged)
            &&& is_terminal(states.last())
            &&& writes_requested(states) == 0
        }),
{
    let events = seq![Event::ParametersRead(observed)];
    let states = run_spec(desired, events);
    assert(events.drop_last() =~= Seq::<Event>::empty());
    assert(run_spec(desired, Seq::<Event>::empty()) =~= seq![initial_spec()]);
    assert(states =~= seq![initial_spec(), State::Done(Outcome::Unchanged)]);
    let s1 = states.drop_last();
    let s0 = s1.drop_last();
    assert(s1 =~= seq![initial_spec()]);
    assert(s0 =~= Seq::<State>::empty());
    assert(writes_requested(s0) == 0);
    assert(writes_requested(s1) == 0);
    assert(writes_requested(states) == 0);
}

/// A desired configuration differing from the observed one makes the
/// protocol request exactly one write, then exactly one re-read, and end
/// in a report: `Applied` when the re-read returns the desired
/// configuration, `AppliedUnconfirmed` otherwise.
pub proof fn lemma_differing_requests_one_write(
    desired: Parameters,
    observed: Parameters,
    current: Parameters,
)
    requires
        observed != desired,
    ensures
        ({
            let events = seq![
                Event::ParametersRead(observed),
                Event::WriteOk,
                Event::ParametersRead(current),
            ];
            let states = run_spec(desired, events);
            &&& writes_requested(states) == 1
            &&& readbacks_requested(states) == 1
            &&& states.last() == (if current == desired {
                State::Done(Outcome::Applied)
            } else {
                State::Done(Outcome::AppliedUnconfirmed)
            })
            &&& is_terminal(states.last())
        }),
{
    let events = seq![
        Event::ParametersRead(observed),
        Event::WriteOk,
        Event::ParametersRead(current),
    ];
    let e2 = events.drop_last();
    let e1 = e2.drop_last();
    let e0 = e1.drop_last();
    assert(e2 =~= seq![Event::ParametersRead(observed), Event::WriteOk]);
    assert(e1 =~= seq![Event::ParametersRead(observed)]);
    assert(e0 =~= Seq::<Event>::empty());
    let last = if current == desired {
        State::Done(Outcome::Applied)
    } else {
        State::Done(Outcome::AppliedUnconfirmed)
    };
    let states = run_spec(desired, events);
    assert(run_spec(desired, e0) =~= seq![initial_spec()]);
    assert(run_spec(desired, e1) =~= seq![initial_spec(), State::Applying]);
    assert(run_spec(desired, e2) =~= seq![initial_spec(), State::Applying, State::Verifying]);
    assert(states =~= seq![initial_spec(), State::Applying, State::Verifying, last]);
    let s2 = states.drop_last();
    let s1 = s2.drop_last();
    let s0 = s1.drop_last();
    assert(s2 =~= seq![initial_spec(), State::Applying, State::Verifying]);
    assert(s1 =~= seq![initial_spec(), State::Applying]);
    assert(s0 =~= seq![initial_spec()]);
    assert(s0.drop_last() =~= Seq::<State>::empty());
    assert(writes_requested(Seq::<State>::empty()) == 0);
    assert(readbacks_requested(Seq::<State>::empty()) == 0);
    assert(writes_requested(s0) == 0);
    assert(writes_requested(s1) == 1);
    assert(writes_requested(s2) == 1);
    assert(writes_requested(states) == 1);
    assert(readbacks_requested(s0) == 0);
    assert(readbacks_requested(s1) == 0);
    assert(readbacks_requested(s2) == 1);
    assert(readbacks_requested(states) == 1);
}

/// Reconciliation is idempotent: after a pass in which the module
/// faithfully applied the write (the re-read returned the desired
/// configuration), a second pass with the same desired configuration
/// reads back that configuration, reports `Unchanged`, and requests no
/// write.
pub proof fn lemma_reconcile_idempotent(desired: Parameters, observed: Parameters)
    requires
        observed != desired,
    ensures
        ({
            let first = run_spec(
                desired,
                seq![
                    Event::ParametersRead(observed),
                    Event::WriteOk,
                    Event::ParametersRead(desired),
                ],
            );
            let second = run_spec(desired, seq![Event::ParametersRead(desired)]);
            &&& first.last() == State::Done(Outcome::Applied)
            &&& second.last() == State::Done(Outcome::Unchanged)
            &&& writes_requested(second) == 0
        }),
{
    lemma_differing_requests_one_write(desired, observed, desired);
    lemma_unchanged_requests_no_write(desired, desired);
}

} // verus!
