use crate::domain::api::{OrderEvent, OrderEventModel, RestaurantCommand, RestaurantCommandModel};
use crate::framework::domain::saga::Saga;
use crate::model::Model;
use vstd::prelude::*;

verus! {

/// The choreography of restaurants: which restaurant commands an event of an
/// order calls for. So far an order asks nothing of its restaurant.
#[derive(Clone, Copy, Debug)]
pub struct RestaurantSaga;

/// The restaurant commands that an event of an order calls for: none.
pub open spec fn restaurant_react(event: OrderEventModel) -> Seq<RestaurantCommandModel> {
    Seq::empty()
}

impl Saga for RestaurantSaga {
    type ActionResult = OrderEvent;

    type Action = RestaurantCommand;

    open spec fn react_model(&self, result: OrderEventModel) -> Seq<RestaurantCommandModel> {
        restaurant_react(result)
    }

    fn react(&self, result: &OrderEvent) -> (actions: Vec<RestaurantCommand>) {
        let actions: Vec<RestaurantCommand> = match result {
            OrderEvent::Created(..) => Vec::new(),
            OrderEvent::Prepared(..) => Vec::new(),
        };
        assert(actions.model() =~= Seq::empty());
        actions
    }
}

/// The choreography of restaurants.
pub fn restaurant_saga() -> (saga: RestaurantSaga)
    ensures
        saga == RestaurantSaga,
{
    RestaurantSaga
}

} // verus!
