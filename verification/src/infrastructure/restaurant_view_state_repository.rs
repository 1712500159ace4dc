use crate::domain::api::{RestaurantEvent, RestaurantEventModel};
use crate::domain::restaurant_view::{RestaurantViewState, RestaurantViewStateModel};
use crate::framework::domain::api::Identifier;
use crate::framework::infrastructure::errors::ErrorMessage;
use crate::framework::infrastructure::view_state_repository::{
    find_row, row_of, ViewStateRepository,
};
use crate::model::{models_push, Model};
use vstd::prelude::*;

verus! {

/// The store of the projected states of restaurants. It holds the states in
/// the order in which they were saved; for a restaurant the last one counts.
pub struct RestaurantViewStateRepository {
    pub rows: Vec<RestaurantViewState>,
}

impl RestaurantViewStateRepository {
    /// A store without states.
    pub fn new() -> (repository: Self)
        ensures
            repository.rows@ == Seq::<RestaurantViewState>::empty(),
    {
        RestaurantViewStateRepository { rows: Vec::new() }
    }
}

/// Said when no state is there to be saved.
pub open spec fn no_restaurant_to_save() -> Seq<char> {
    "Failed to save the restaurant: state is empty"@
}

impl ViewStateRepository<RestaurantEvent, Option<RestaurantViewState>>
    for RestaurantViewStateRepository {
    open spec fn state_for(&self, event: RestaurantEventModel) -> Option<
        Option<RestaurantViewStateModel>,
    > {
        Some(row_of::<RestaurantViewState>(self.rows.model(), event.identifier().0))
    }

    open spec fn never_fails(&self) -> bool {
        true
    }

    open spec fn storable(state: Option<RestaurantViewStateModel>) -> bool {
        state is Some
    }

    open spec fn describes(
        state: Option<RestaurantViewStateModel>,
        event: RestaurantEventModel,
    ) -> bool {
        state is Some && state->Some_0.identifier == event.identifier()
    }

    fn fetch_state(&self, event: &RestaurantEvent) -> (fetched: Result<
        Option<Option<RestaurantViewState>>,
        ErrorMessage,
    >) {
        let identifier = event.identifier();
        Ok(Some(find_row(&self.rows, &identifier)))
    }

    fn save(&mut self, state: &Option<RestaurantViewState>) -> (saved: Result<
        Option<RestaurantViewState>,
        ErrorMessage,
    >)
        ensures
            state is None ==> (saved matches Err(error) && error.model()
                == no_restaurant_to_save()),
    {
        match state {
            None => Err(
                ErrorMessage {
                    message: "Failed to save the restaurant: state is empty".to_owned(),
                },
            ),
            Some(state) => {
                let row = state.clone();
                let ghost before = self.rows.model();
                proof {
                    models_push(self.rows@, row);
                }
                self.rows.push(row);
                proof {
                    let after = self.rows.model();
                    assert(after.drop_last() =~= before);
                    assert(after.last() == state.model());
                    assert forall|event: RestaurantEventModel|
                        row_of::<RestaurantViewState>(after, event.identifier().0) == if event.identifier()
                            == state.model().identifier {
                            Some(state.model())
                        } else {
                            row_of::<RestaurantViewState>(before, event.identifier().0)
                        } by {}
                }
                Ok(Some(state.clone()))
            },
        }
    }
}

} // verus!
