use crate::model::Model;
use vstd::prelude::*;

verus! {

/// The evolution algebra of the read side: where its state starts and how an
/// event changes it.
pub trait Projection {
    type State: Model;

    type Event: Model;

    /// The state before any event.
    spec fn initial_state_model(&self) -> <Self::State as Model>::M;

    /// The state that the event makes of the state.
    spec fn evolve_model(
        &self,
        state: <Self::State as Model>::M,
        event: <Self::Event as Model>::M,
    ) -> <Self::State as Model>::M;

    /// The state before any event.
    fn initial_state(&self) -> (state: Self::State)
        ensures
            state.model() == self.initial_state_model(),
    ;

    /// Applies the event to the state.
    fn evolve(&self, state: &Self::State, event: &Self::Event) -> (next: Self::State)
        ensures
            next.model() == self.evolve_model(state.model(), event.model()),
    ;
}

/// The state reached from `state` by the events, applied in order.
pub open spec fn project<V: Projection>(
    view: V,
    state: <V::State as Model>::M,
    events: Seq<<V::Event as Model>::M>,
) -> <V::State as Model>::M
    decreases events.len(),
{
    if events.len() == 0 {
        state
    } else {
        view.evolve_model(project(view, state, events.drop_last()), events.last())
    }
}

/// The state that the events lead to from the current state, or from the
/// initial state where there is no current state.
pub open spec fn new_state_model<V: Projection>(
    view: V,
    current_state: Option<<V::State as Model>::M>,
    events: Seq<<V::Event as Model>::M>,
) -> <V::State as Model>::M {
    match current_state {
        Some(state) => project(view, state, events),
        None => project(view, view.initial_state_model(), events),
    }
}

/// Applies the events to the current state, or to the initial state where
/// there is no current state.
pub fn compute_new_state<V: Projection>(
    view: &V,
    current_state: Option<V::State>,
    events: &[&V::Event],
) -> (state: V::State)
    ensures
        state.model() == new_state_model(
            *view,
            current_state.model(),
            Seq::new(events@.len(), |i: int| events@[i].model()),
        ),
{
    let ghost all = Seq::new(events@.len(), |i: int| events@[i].model());
    let mut state = match current_state {
        Some(state) => state,
        None => view.initial_state(),
    };
    let ghost start = state.model();
    let mut i: usize = 0;
    while i < events.len()
        invariant
            i <= events.len(),
            all == Seq::new(events@.len(), |i: int| events@[i].model()),
            state.model() == project(*view, start, all.take(i as int)),
        decreases events.len() - i,
    {
        proof {
            assert(all.take(i as int + 1).drop_last() =~= all.take(i as int));
        }
        state = view.evolve(&state, events[i]);
        i += 1;
    }
    proof {
        assert(all.take(i as int) =~= all);
    }
    state
}

} // verus!
