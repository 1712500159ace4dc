use crate::domain::api::{
    OrderEvent, OrderEventModel, OrderId, OrderLineItem, OrderLineItemModel, OrderStatus,
    RestaurantId,
};
use crate::framework::domain::api::Identifier;
use crate::framework::domain::projection::Projection;
use crate::model::{clone_vec, Faithful, Model};
use uuid::Uuid;
use vstd::prelude::*;

verus! {

/// The projected state of an order, as the read side shows it.
#[derive(Debug, PartialEq, Eq)]
pub struct OrderViewState {
    pub identifier: OrderId,
    pub restaurant_identifier: RestaurantId,
    pub status: OrderStatus,
    pub line_items: Vec<OrderLineItem>,
}

/// What the projected state of an order stands for.
pub struct OrderViewStateModel {
    pub identifier: OrderId,
    pub restaurant_identifier: RestaurantId,
    pub status: OrderStatus,
    pub line_items: Seq<OrderLineItemModel>,
}

impl Model for OrderViewState {
    type M = OrderViewStateModel;

    open spec fn model(&self) -> OrderViewStateModel {
        OrderViewStateModel {
            identifier: self.identifier,
            restaurant_identifier: self.restaurant_identifier,
            status: self.status,
            line_items: self.line_items.model(),
        }
    }
}

impl Clone for OrderViewState {
    fn clone(&self) -> (copy: Self)
        ensures
            copy.model() == self.model(),
    {
        OrderViewState {
            identifier: self.identifier,
            restaurant_identifier: self.restaurant_identifier,
            status: self.status,
            line_items: clone_vec(&self.line_items),
        }
    }
}

impl Faithful for OrderViewState {
    proof fn copy_has_model(source: Self, copy: Self) {
    }
}

impl Identifier for OrderViewState {
    open spec fn identifier_of(message: OrderViewStateModel) -> Uuid {
        message.identifier.0
    }

    fn identifier(&self) -> (id: Uuid) {
        self.identifier.0
    }
}

/// The read side of orders.
#[derive(Clone, Copy, Debug)]
pub struct OrderView;

/// What an event makes of the projected state of an order. An order that was
/// never created stays absent.
pub open spec fn order_view_evolve(
    state: Option<OrderViewStateModel>,
    event: OrderEventModel,
) -> Option<OrderViewStateModel> {
    match event {
        OrderEventModel::Created(e) => Some(
            OrderViewStateModel {
                identifier: e.identifier,
                restaurant_identifier: e.restaurant_identifier,
                status: e.status,
                line_items: e.line_items,
            },
        ),
        OrderEventModel::Prepared(e) => match state {
            Some(s) => Some(
                OrderViewStateModel {
                    identifier: e.identifier,
                    restaurant_identifier: s.restaurant_identifier,
                    status: e.status,
                    line_items: s.line_items,
                },
            ),
            None => None,
        },
    }
}

impl Projection for OrderView {
    type State = Option<OrderViewState>;

    type Event = OrderEvent;

    open spec fn initial_state_model(&self) -> Option<OrderViewStateModel> {
        None
    }

    open spec fn evolve_model(
        &self,
        state: Option<OrderViewStateModel>,
        event: OrderEventModel,
    ) -> Option<OrderViewStateModel> {
        order_view_evolve(state, event)
    }

    fn initial_state(&self) -> (state: Option<OrderViewState>) {
        None
    }

    fn evolve(&self, state: &Option<OrderViewState>, event: &OrderEvent) -> (next: Option<
        OrderViewState,
    >) {
        match event {
            OrderEvent::Created(event) => Some(
                OrderViewState {
                    identifier: event.identifier,
                    restaurant_identifier: event.restaurant_identifier,
                    status: event.status,
                    line_items: clone_vec(&event.line_items),
                },
            ),
            OrderEvent::Prepared(event) => match state {
                Some(s) => Some(
                    OrderViewState {
                        identifier: event.identifier,
                        restaurant_identifier: s.restaurant_identifier,
                        status: event.status,
                        line_items: clone_vec(&s.line_items),
                    },
                ),
                None => None,
            },
        }
    }
}

/// The read side of orders.
pub fn order_view() -> (view: OrderView)
    ensures
        view == OrderView,
{
    OrderView
}

/// Applying one event twice leaves the projected state of an order as
/// applying it once does.
pub proof fn order_view_is_idempotent(state: Option<OrderViewStateModel>, event: OrderEventModel)
    ensures
        order_view_evolve(order_view_evolve(state, event), event) == order_view_evolve(
            state,
            event,
        ),
{
}

} // verus!
