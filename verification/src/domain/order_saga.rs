use crate::domain::api::{
    CreateOrder, CreateOrderModel, OrderCommand, OrderCommandModel, RestaurantEvent,
    RestaurantEventModel,
};
use crate::framework::domain::saga::Saga;
use crate::model::{clone_vec, Model};
use vstd::prelude::*;

verus! {

/// The choreography of orders: which order commands an event of a restaurant
/// calls for. An order placed at a restaurant is to be created.
#[derive(Clone, Copy, Debug)]
pub struct OrderSaga;

/// The order commands that an event of a restaurant calls for.
pub open spec fn order_react(event: RestaurantEventModel) -> Seq<OrderCommandModel> {
    match event {
        RestaurantEventModel::OrderPlaced(e) => seq![
            OrderCommandModel::Create(
                CreateOrderModel {
                    identifier: e.order_identifier,
                    restaurant_identifier: e.identifier,
                    line_items: e.line_items,
                },
            ),
        ],
        _ => Seq::empty(),
    }
}

impl Saga for OrderSaga {
    type ActionResult = RestaurantEvent;

    type Action = OrderCommand;

    open spec fn react_model(&self, result: RestaurantEventModel) -> Seq<OrderCommandModel> {
        order_react(result)
    }

    fn react(&self, result: &RestaurantEvent) -> (actions: Vec<OrderCommand>) {
        let actions: Vec<OrderCommand> = match result {
            RestaurantEvent::Created(..) => Vec::new(),
            RestaurantEvent::MenuChanged(..) => Vec::new(),
            RestaurantEvent::OrderPlaced(event) => vec![
                OrderCommand::Create(
                    CreateOrder {
                        identifier: event.order_identifier,
                        restaurant_identifier: event.identifier,
                        line_items: clone_vec(&event.line_items),
                    },
                ),
            ],
        };
        assert(actions.model() =~= order_react(result.model()));
        actions
    }
}

/// The choreography of orders.
pub fn order_saga() -> (saga: OrderSaga)
    ensures
        saga == OrderSaga,
{
    OrderSaga
}

} // verus!
