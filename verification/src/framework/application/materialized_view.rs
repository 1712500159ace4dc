use crate::framework::domain::projection::{compute_new_state, new_state_model, Projection};
use crate::framework::infrastructure::errors::ErrorMessage;
use crate::framework::infrastructure::view_state_repository::ViewStateRepository;
use crate::model::Model;
use vstd::prelude::*;

verus! {

/// A materialized view: a projection together with the store that holds its
/// states. An event is applied to the state of the entity it belongs to, and
/// the new state is stored.
pub struct MaterializedView<Repository, V> {
    pub repository: Repository,
    pub view: V,
}

impl<Repository, V> MaterializedView<Repository, V> where
    V: Projection,
    Repository: ViewStateRepository<V::Event, V::State>,
 {
    pub fn new(repository: Repository, view: V) -> (materialized: Self)
        ensures
            materialized.repository == repository,
            materialized.view == view,
    {
        MaterializedView { repository, view }
    }

    /// The state that the events lead to from the current state, or from the
    /// initial state where there is no current state.
    pub fn compute_new_state(&self, current_state: Option<V::State>, events: &[&V::Event]) -> (state:
        V::State)
        ensures
            state.model() == new_state_model(
                self.view,
                current_state.model(),
                Seq::new(events@.len(), |i: int| events@[i].model()),
            ),
    {
        compute_new_state(&self.view, current_state, events)
    }

    /// The state that the event makes of the state that the store holds for
    /// its entity.
    pub open spec fn projected(self, event: <V::Event as Model>::M) -> <V::State as Model>::M {
        new_state_model(self.view, self.repository.state_for(event), seq![event])
    }

    /// Handles the event: fetches the state of its entity, applies the event
    /// to it, and stores and returns the new state. A new state that cannot
    /// be stored is an error, and so is a failure of the store; the store is
    /// then as it was.
    pub fn handle(&mut self, event: &V::Event) -> (handled: Result<V::State, ErrorMessage>)
        ensures
            final(self).view == old(self).view,
            final(self).repository.never_fails() == old(self).repository.never_fails(),
            old(self).repository.never_fails() ==> (handled is Ok <==> Repository::storable(
                old(self).projected(event.model()),
            )),
            handled matches Ok(state) ==> state.model() == old(self).projected(event.model())
                && forall|other: <V::Event as Model>::M|
                #[trigger] final(self).repository.state_for(other) == if Repository::describes(
                    state.model(),
                    other,
                ) {
                    Some(state.model())
                } else {
                    old(self).repository.state_for(other)
                },
            handled is Err ==> forall|other: <V::Event as Model>::M|
                #[trigger] final(self).repository.state_for(other) == old(
                    self,
                ).repository.state_for(other),
    {
        let state = match self.repository.fetch_state(event) {
            Ok(state) => state,
            Err(message) => {
                return Err(message);
            },
        };
        let events = [event];
        proof {
            assert(Seq::new(events@.len(), |i: int| events@[i].model()) =~= seq![event.model()]);
        }
        let new_state = compute_new_state(&self.view, state, events.as_slice());
        self.repository.save(&new_state)
    }
}

} // verus!
