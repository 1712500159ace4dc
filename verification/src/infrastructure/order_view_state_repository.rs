use crate::domain::api::{OrderEvent, OrderEventModel};
use crate::domain::order_view::{OrderViewState, OrderViewStateModel};
use crate::framework::domain::api::Identifier;
use crate::framework::infrastructure::errors::ErrorMessage;
use crate::framework::infrastructure::view_state_repository::{
    find_row, row_of, ViewStateRepository,
};
use crate::model::{models_push, Model};
use vstd::prelude::*;

verus! {

/// The store of the projected states of orders. It holds the states in
/// the order in which they were saved; for an order the last one counts.
pub struct OrderViewStateRepository {
    pub rows: Vec<OrderViewState>,
}

impl OrderViewStateRepository {
    /// A store without states.
    pub fn new() -> (repository: Self)
        ensures
            repository.rows@ == Seq::<OrderViewState>::empty(),
    {
        OrderViewStateRepository { rows: Vec::new() }
    }
}

/// Said when no state is there to be saved.
pub open spec fn no_order_to_save() -> Seq<char> {
    "Failed to save the order: state is empty"@
}

impl ViewStateRepository<OrderEvent, Option<OrderViewState>>
    for OrderViewStateRepository {
    open spec fn state_for(&self, event: OrderEventModel) -> Option<
        Option<OrderViewStateModel>,
    > {
        Some(row_of::<OrderViewState>(self.rows.model(), event.identifier().0))
    }

    open spec fn never_fails(&self) -> bool {
        true
    }

    open spec fn storable(state: Option<OrderViewStateModel>) -> bool {
        state is Some
    }

    open spec fn describes(
        state: Option<OrderViewStateModel>,
        event: OrderEventModel,
    ) -> bool {
        state is Some && state->Some_0.identifier == event.identifier()
    }

    fn fetch_state(&self, event: &OrderEvent) -> (fetched: Result<
        Option<Option<OrderViewState>>,
        ErrorMessage,
    >) {
        let identifier = event.identifier();
        Ok(Some(find_row(&self.rows, &identifier)))
    }

    fn save(&mut self, state: &Option<OrderViewState>) -> (saved: Result<
        Option<OrderViewState>,
        ErrorMessage,
    >)
        ensures
            state is None ==> (saved matches Err(error) && error.model()
                == no_order_to_save()),
    {
        match state {
            None => Err(
                ErrorMessage {
                    message: "Failed to save the order: state is empty".to_owned(),
                },
            ),
            Some(state) => {
                let row = state.clone();
                let ghost before = self.rows.model();
                proof {
                    models_push(self.rows@, row);
                }
                self.rows.push(row);
                proof {
                    let after = self.rows.model();
                    assert(after.drop_last() =~= before);
                    assert(after.last() == state.model());
                    assert forall|event: OrderEventModel|
                        row_of::<OrderViewState>(after, event.identifier().0) == if event.identifier()
                            == state.model().identifier {
                            Some(state.model())
                        } else {
                            row_of::<OrderViewState>(before, event.identifier().0)
                        } by {}
                }
                Ok(Some(state.clone()))
            },
        }
    }
}

} // verus!
