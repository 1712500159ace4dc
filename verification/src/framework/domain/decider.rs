use crate::model::{models, Faithful, Model};
use fmodel_rust::Sum;
use vstd::prelude::*;

verus! {

/// The decision-making algebra of one kind of entity: where its state starts,
/// which events a command yields in a state, and how an event changes a state.
/// It touches nothing but its arguments.
///
/// A command that does not fit the state is rejected: the decider answers
/// with an error, and no event comes of the command.
pub trait Decider {
    type Command: Model;

    type State: Model;

    type Event: Model;

    type Error: Model;

    /// The state before any event.
    spec fn initial_state_model(&self) -> <Self::State as Model>::M;

    /// The events that the command yields in the state, or the reason why it
    /// is rejected.
    spec fn decide_model(
        &self,
        command: <Self::Command as Model>::M,
        state: <Self::State as Model>::M,
    ) -> Result<Seq<<Self::Event as Model>::M>, <Self::Error as Model>::M>;

    /// The state that the event makes of the state.
    spec fn evolve_model(
        &self,
        state: <Self::State as Model>::M,
        event: <Self::Event as Model>::M,
    ) -> <Self::State as Model>::M;

    /// The state before any event.
    fn initial_state(&self) -> (state: Self::State)
        ensures
            state.model() == self.initial_state_model(),
    ;

    /// Decides which events the command yields in the state.
    fn decide(&self, command: &Self::Command, state: &Self::State) -> (decision: Result<
        Vec<Self::Event>,
        Self::Error,
    >)
        ensures
            decision.model() == self.decide_model(command.model(), state.model()),
    ;

    /// Applies the event to the state.
    fn evolve(&self, state: &Self::State, event: &Self::Event) -> (next: Self::State)
        ensures
            next.model() == self.evolve_model(state.model(), event.model()),
    ;
}

/// What a command of the decider stands for.
pub type CommandOf<D> = <<D as Decider>::Command as Model>::M;

/// What a state of the decider stands for.
pub type StateOf<D> = <<D as Decider>::State as Model>::M;

/// What an event of the decider stands for.
pub type EventOf<D> = <<D as Decider>::Event as Model>::M;

/// What a rejection by the decider stands for.
pub type ErrorOf<D> = <<D as Decider>::Error as Model>::M;

/// The state reached from `state` by the events, applied in order.
pub open spec fn fold_events<D: Decider>(
    decider: D,
    state: StateOf<D>,
    events: Seq<EventOf<D>>,
) -> StateOf<D>
    decreases events.len(),
{
    if events.len() == 0 {
        state
    } else {
        decider.evolve_model(fold_events(decider, state, events.drop_last()), events.last())
    }
}

/// The state of a stream: its events applied in order to the initial state.
pub open spec fn state_of<D: Decider>(decider: D, events: Seq<EventOf<D>>) -> StateOf<D> {
    fold_events(decider, decider.initial_state_model(), events)
}

/// What the decider decides on a command for a stream with the given events.
pub open spec fn decision_on<D: Decider>(
    decider: D,
    current_events: Seq<EventOf<D>>,
    command: CommandOf<D>,
) -> Result<Seq<EventOf<D>>, ErrorOf<D>> {
    decider.decide_model(command, state_of(decider, current_events))
}

/// Folds the events into the state they lead to from the initial state.
pub fn current_state<D: Decider>(decider: &D, events: &[D::Event]) -> (state: D::State)
    ensures
        state.model() == state_of(*decider, models(events@)),
{
    let mut state = decider.initial_state();
    let mut i: usize = 0;
    while i < events.len()
        invariant
            i <= events.len(),
            state.model() == state_of(*decider, models(events@.take(i as int))),
        decreases events.len() - i,
    {
        proof {
            let upto = models(events@.take(i as int + 1));
            assert(upto.drop_last() =~= models(events@.take(i as int)));
            assert(upto.last() == events@[i as int].model());
        }
        state = decider.evolve(&state, &events[i]);
        i += 1;
    }
    proof {
        assert(events@.take(i as int) =~= events@);
    }
    state
}

/// Decides on a command for a stream with the given events.
pub fn compute_new_events<D: Decider>(
    decider: &D,
    current_events: &[D::Event],
    command: &D::Command,
) -> (decision: Result<Vec<D::Event>, D::Error>)
    ensures
        decision.model() == decision_on(*decider, models(current_events@), command.model()),
{
    let state = current_state(decider, current_events);
    decider.decide(command, &state)
}

/// Each item of a sequence as the first side of a choice.
pub open spec fn all_first<A, B>(items: Seq<A>) -> Seq<Sum<A, B>> {
    Seq::new(items.len(), |i: int| Sum::First(items[i]))
}

/// Each item of a sequence as the second side of a choice.
pub open spec fn all_second<A, B>(items: Seq<B>) -> Seq<Sum<A, B>> {
    Seq::new(items.len(), |i: int| Sum::Second(items[i]))
}

/// Wraps each item as the first side of a choice, keeping the order.
pub fn into_first<A: Model, B: Model>(items: Vec<A>) -> (choices: Vec<Sum<A, B>>)
    ensures
        choices.model() == all_first::<A::M, B::M>(items.model()),
{
    let mut choices: Vec<Sum<A, B>> = Vec::new();
    for item in iter: items
        invariant
            choices.len() == iter.index(),
            forall|j: int|
                0 <= j < choices.len() ==> choices[j] == Sum::<A, B>::First(iter.seq()[j]),
    {
        choices.push(Sum::First(item));
    }
    assert(choices.model() =~= all_first::<A::M, B::M>(items.model()));
    choices
}

/// Wraps each item as the second side of a choice, keeping the order.
pub fn into_second<A: Model, B: Model>(items: Vec<B>) -> (choices: Vec<Sum<A, B>>)
    ensures
        choices.model() == all_second::<A::M, B::M>(items.model()),
{
    let mut choices: Vec<Sum<A, B>> = Vec::new();
    for item in iter: items
        invariant
            choices.len() == iter.index(),
            forall|j: int|
                0 <= j < choices.len() ==> choices[j] == Sum::<A, B>::Second(iter.seq()[j]),
    {
        choices.push(Sum::Second(item));
    }
    assert(choices.model() =~= all_second::<A::M, B::M>(items.model()));
    choices
}

/// Two deciders as one. A command is a command of either; the state holds
/// the state of both; an event is an event of either. Each command and each
/// event goes to the side it belongs to.
pub struct CombinedDecider<A, B> {
    pub first: A,
    pub second: B,
}

impl<A, B> Decider for CombinedDecider<A, B> where
    A: Decider,
    B: Decider<Error = A::Error>,
    A::State: Faithful,
    B::State: Faithful,
 {
    type Command = Sum<A::Command, B::Command>;

    type State = (A::State, B::State);

    type Event = Sum<A::Event, B::Event>;

    type Error = A::Error;

    open spec fn initial_state_model(&self) -> (<A::State as Model>::M, <B::State as Model>::M) {
        (self.first.initial_state_model(), self.second.initial_state_model())
    }

    open spec fn decide_model(
        &self,
        command: Sum<<A::Command as Model>::M, <B::Command as Model>::M>,
        state: (<A::State as Model>::M, <B::State as Model>::M),
    ) -> Result<
        Seq<Sum<<A::Event as Model>::M, <B::Event as Model>::M>>,
        <A::Error as Model>::M,
    > {
        match command {
            Sum::First(c) => match self.first.decide_model(c, state.0) {
                Ok(events) => Ok(all_first(events)),
                Err(e) => Err(e),
            },
            Sum::Second(c) => match self.second.decide_model(c, state.1) {
                Ok(events) => Ok(all_second(events)),
                Err(e) => Err(e),
            },
        }
    }

    open spec fn evolve_model(
        &self,
        state: (<A::State as Model>::M, <B::State as Model>::M),
        event: Sum<<A::Event as Model>::M, <B::Event as Model>::M>,
    ) -> (<A::State as Model>::M, <B::State as Model>::M) {
        match event {
            Sum::First(e) => (self.first.evolve_model(state.0, e), state.1),
            Sum::Second(e) => (state.0, self.second.evolve_model(state.1, e)),
        }
    }

    fn initial_state(&self) -> (state: Self::State) {
        (self.first.initial_state(), self.second.initial_state())
    }

    fn decide(&self, command: &Self::Command, state: &Self::State) -> (decision: Result<
        Vec<Self::Event>,
        Self::Error,
    >) {
        match command {
            Sum::First(c) => match self.first.decide(c, &state.0) {
                Ok(events) => Ok(into_first(events)),
                Err(e) => Err(e),
            },
            Sum::Second(c) => match self.second.decide(c, &state.1) {
                Ok(events) => Ok(into_second(events)),
                Err(e) => Err(e),
            },
        }
    }

    fn evolve(&self, state: &Self::State, event: &Self::Event) -> (next: Self::State) {
        match event {
            Sum::First(e) => {
                let untouched = state.1.clone();
                proof {
                    B::State::copy_has_model(state.1, untouched);
                }
                (self.first.evolve(&state.0, e), untouched)
            },
            Sum::Second(e) => {
                let untouched = state.0.clone();
                proof {
                    A::State::copy_has_model(state.0, untouched);
                }
                (untouched, self.second.evolve(&state.1, e))
            },
        }
    }
}

/// Combines two deciders into one that handles the commands of both.
pub fn combine<A, B>(first: A, second: B) -> (combined: CombinedDecider<A, B>) where
    A: Decider,
    B: Decider<Error = A::Error>,
    A::State: Faithful,
    B::State: Faithful,

    ensures
        combined.first == first,
        combined.second == second,
{
    CombinedDecider { first, second }
}

/// Replaying the same events leads to the same state: whatever memory holds
/// them, events that stand for the same lead to states that stand for the
/// same.
pub proof fn replay_is_deterministic<D: Decider>(
    decider: D,
    events: Seq<D::Event>,
    again: Seq<D::Event>,
)
    requires
        models(events) == models(again),
    ensures
        state_of(decider, models(events)) == state_of(decider, models(again)),
{
}

/// Replaying a history in two parts leads to the state that replaying it in
/// one go leads to: the state depends on the events and their order alone.
pub proof fn replay_in_parts<D: Decider>(
    decider: D,
    state: StateOf<D>,
    first: Seq<EventOf<D>>,
    second: Seq<EventOf<D>>,
)
    ensures
        fold_events(decider, state, first + second) == fold_events(
            decider,
            fold_events(decider, state, first),
            second,
        ),
    decreases second.len(),
{
    if second.len() == 0 {
        assert(first + second =~= first);
    } else {
        assert((first + second).drop_last() =~= first + second.drop_last());
        replay_in_parts(decider, state, first, second.drop_last());
    }
}

/// An event of the first side changes the state of the first side as the
/// first decider says, and leaves the state of the second side as it is.
pub proof fn first_side_event_keeps_second_state<A, B>(
    combined: CombinedDecider<A, B>,
    state: (<A::State as Model>::M, <B::State as Model>::M),
    event: <A::Event as Model>::M,
) where A: Decider, B: Decider<Error = A::Error>, A::State: Faithful, B::State: Faithful
    ensures
        combined.evolve_model(state, Sum::First(event)) == (
            combined.first.evolve_model(state.0, event),
            state.1,
        ),
{
}

/// An event of the second side changes the state of the second side as the
/// second decider says, and leaves the state of the first side as it is.
pub proof fn second_side_event_keeps_first_state<A, B>(
    combined: CombinedDecider<A, B>,
    state: (<A::State as Model>::M, <B::State as Model>::M),
    event: <B::Event as Model>::M,
) where A: Decider, B: Decider<Error = A::Error>, A::State: Faithful, B::State: Faithful
    ensures
        combined.evolve_model(state, Sum::Second(event)) == (
            state.0,
            combined.second.evolve_model(state.1, event),
        ),
{
}

/// A command of the first side is decided on the state of the first side
/// alone, whatever the state of the second side is, and yields events of the
/// first side only.
pub proof fn first_side_command_ignores_second_state<A, B>(
    combined: CombinedDecider<A, B>,
    command: <A::Command as Model>::M,
    state: (<A::State as Model>::M, <B::State as Model>::M),
    other: <B::State as Model>::M,
) where A: Decider, B: Decider<Error = A::Error>, A::State: Faithful, B::State: Faithful
    ensures
        combined.decide_model(Sum::First(command), state) == combined.decide_model(
            Sum::First(command),
            (state.0, other),
        ),
        combined.decide_model(Sum::First(command), state) matches Ok(events) ==> forall|i: int|
            0 <= i < events.len() ==> events[i] is First,
{
}

/// A command of the second side is decided on the state of the second side
/// alone, whatever the state of the first side is, and yields events of the
/// second side only.
pub proof fn second_side_command_ignores_first_state<A, B>(
    combined: CombinedDecider<A, B>,
    command: <B::Command as Model>::M,
    state: (<A::State as Model>::M, <B::State as Model>::M),
    other: <A::State as Model>::M,
) where A: Decider, B: Decider<Error = A::Error>, A::State: Faithful, B::State: Faithful
    ensures
        combined.decide_model(Sum::Second(command), state) == combined.decide_model(
            Sum::Second(command),
            (other, state.1),
        ),
        combined.decide_model(Sum::Second(command), state) matches Ok(events) ==> forall|i: int|
            0 <= i < events.len() ==> events[i] is Second,
{
}

} // verus!
