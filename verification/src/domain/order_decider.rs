use crate::domain::api::{
    CreateOrderModel,
    OrderCommand, OrderCommandModel, OrderCreated, OrderCreatedModel, OrderEvent, OrderEventModel,
    OrderId, OrderLineItem, OrderLineItemModel, OrderPrepared, OrderStatus, RestaurantId,
};
use crate::framework::domain::api::{DomainError, DomainErrorModel};
use crate::framework::domain::decider::{fold_events, state_of, Decider};
use crate::model::{clone_vec, Faithful, Model};
use vstd::prelude::*;

verus! {

/// The state of an order: what its events have made of it.
#[derive(Debug, PartialEq, Eq)]
pub struct Order {
    pub identifier: OrderId,
    pub restaurant_identifier: RestaurantId,
    pub status: OrderStatus,
    pub line_items: Vec<OrderLineItem>,
}

/// What the state of an order stands for.
pub struct OrderModel {
    pub identifier: OrderId,
    pub restaurant_identifier: RestaurantId,
    pub status: OrderStatus,
    pub line_items: Seq<OrderLineItemModel>,
}

impl Model for Order {
    type M = OrderModel;

    open spec fn model(&self) -> OrderModel {
        OrderModel {
            identifier: self.identifier,
            restaurant_identifier: self.restaurant_identifier,
            status: self.status,
            line_items: self.line_items.model(),
        }
    }
}

impl Clone for Order {
    fn clone(&self) -> (copy: Self)
        ensures
            copy.model() == self.model(),
    {
        Order {
            identifier: self.identifier,
            restaurant_identifier: self.restaurant_identifier,
            status: self.status,
            line_items: clone_vec(&self.line_items),
        }
    }
}

impl Faithful for Order {
    proof fn copy_has_model(source: Self, copy: Self) {
    }
}

/// Said when an order that exists is to be created again.
pub open spec fn order_already_exists() -> Seq<char> {
    "Failed to create the Order. Order already exists!"@
}

/// Said when an order that does not exist, or that is past its creation, is
/// to be marked as prepared.
pub open spec fn order_not_ready() -> Seq<char> {
    "Failed to mark the order as prepared. Order does not exist or is not in the correct state!"@
}

/// The decider of orders. A command that does not fit the state is rejected
/// with an error and yields no event.
#[derive(Clone, Copy, Debug)]
pub struct OrderDecider;

/// What an order decides on a command.
pub open spec fn order_decide(command: OrderCommandModel, state: Option<OrderModel>) -> Result<
    Seq<OrderEventModel>,
    DomainErrorModel,
> {
    match command {
        OrderCommandModel::Create(c) => if state is Some {
            Err(DomainErrorModel::OrderNotCreated(order_already_exists()))
        } else {
            Ok(
                seq![
                    OrderEventModel::Created(
                        OrderCreatedModel {
                            identifier: c.identifier,
                            restaurant_identifier: c.restaurant_identifier,
                            status: OrderStatus::Created,
                            line_items: c.line_items,
                            is_final: false,
                        },
                    ),
                ],
            )
        },
        OrderCommandModel::MarkAsPrepared(c) => if state is Some && state->Some_0.status
            == OrderStatus::Created {
            Ok(
                seq![
                    OrderEventModel::Prepared(
                        OrderPrepared {
                            identifier: c.identifier,
                            status: OrderStatus::Prepared,
                            is_final: true,
                        },
                    ),
                ],
            )
        } else {
            Err(DomainErrorModel::OrderNotPrepared(order_not_ready()))
        },
    }
}

/// What an event makes of an order.
pub open spec fn order_evolve(state: Option<OrderModel>, event: OrderEventModel) -> Option<
    OrderModel,
> {
    match event {
        OrderEventModel::Created(e) => Some(
            OrderModel {
                identifier: e.identifier,
                restaurant_identifier: e.restaurant_identifier,
                status: e.status,
                line_items: e.line_items,
            },
        ),
        OrderEventModel::Prepared(e) => match state {
            Some(s) => Some(
                OrderModel {
                    identifier: e.identifier,
                    restaurant_identifier: s.restaurant_identifier,
                    status: e.status,
                    line_items: s.line_items,
                },
            ),
            None => None,
        },
    }
}

/// Whether the order exists and has come no further than its creation.
fn is_created(state: &Option<Order>) -> (fresh: bool)
    ensures
        fresh == (state.model() is Some && state.model()->Some_0.status == OrderStatus::Created),
{
    match state {
        Some(order) => match order.status {
            OrderStatus::Created => true,
            _ => false,
        },
        None => false,
    }
}

impl Decider for OrderDecider {
    type Command = OrderCommand;

    type State = Option<Order>;

    type Event = OrderEvent;

    type Error = DomainError;

    open spec fn initial_state_model(&self) -> Option<OrderModel> {
        None
    }

    open spec fn decide_model(&self, command: OrderCommandModel, state: Option<OrderModel>) -> Result<
        Seq<OrderEventModel>,
        DomainErrorModel,
    > {
        order_decide(command, state)
    }

    open spec fn evolve_model(&self, state: Option<OrderModel>, event: OrderEventModel) -> Option<
        OrderModel,
    > {
        order_evolve(state, event)
    }

    fn initial_state(&self) -> (state: Option<Order>) {
        None
    }

    fn decide(&self, command: &OrderCommand, state: &Option<Order>) -> (decision: Result<
        Vec<OrderEvent>,
        DomainError,
    >) {
        match command {
            OrderCommand::Create(command) => {
                if state.is_some() {
                    let error = DomainError::OrderNotCreated(
                        "Failed to create the Order. Order already exists!".to_owned(),
                    );
                    assert(error.model() == DomainErrorModel::OrderNotCreated(
                        order_already_exists(),
                    ));
                    Err(error)
                } else {
                    let events = vec![
                        OrderEvent::Created(
                            OrderCreated {
                                identifier: command.identifier,
                                restaurant_identifier: command.restaurant_identifier,
                                status: OrderStatus::Created,
                                line_items: clone_vec(&command.line_items),
                                is_final: false,
                            },
                        ),
                    ];
                    proof {
                        assert(events.model() =~= order_decide(
                            OrderCommandModel::Create(command.model()),
                            state.model(),
                        )->Ok_0);
                    }
                    Ok(events)
                }
            },
            OrderCommand::MarkAsPrepared(command) => {
                if is_created(state) {
                    let events = vec![
                        OrderEvent::Prepared(
                            OrderPrepared {
                                identifier: command.identifier,
                                status: OrderStatus::Prepared,
                                is_final: true,
                            },
                        ),
                    ];
                    proof {
                        assert(events.model() =~= order_decide(
                            OrderCommandModel::MarkAsPrepared(*command),
                            state.model(),
                        )->Ok_0);
                    }
                    Ok(events)
                } else {
                    let reason =
                        "Failed to mark the order as prepared. Order does not exist or is not in the correct state!";
                    let error = DomainError::OrderNotPrepared(reason.to_owned());
                    assert(error.model() == DomainErrorModel::OrderNotPrepared(order_not_ready()));
                    Err(error)
                }
            },
        }
    }

    fn evolve(&self, state: &Option<Order>, event: &OrderEvent) -> (next: Option<Order>) {
        match event {
            OrderEvent::Created(event) => Some(
                Order {
                    identifier: event.identifier,
                    restaurant_identifier: event.restaurant_identifier,
                    status: event.status,
                    line_items: clone_vec(&event.line_items),
                },
            ),
            OrderEvent::Prepared(event) => match state {
                Some(s) => Some(
                    Order {
                        identifier: event.identifier,
                        restaurant_identifier: s.restaurant_identifier,
                        status: event.status,
                        line_items: clone_vec(&s.line_items),
                    },
                ),
                None => None,
            },
        }
    }
}

/// The decider of orders.
pub fn order_decider() -> (decider: OrderDecider)
    ensures
        decider == OrderDecider,
{
    OrderDecider
}

/// The command to create an order, sent to an order that does not exist
/// yet, yields the one event that the order was created, with the
/// identifier, restaurant and lines of the command. After that event the
/// order exists and is in the state of its creation.
pub proof fn creating_a_new_order_creates_it(command: CreateOrderModel)
    ensures
        order_decide(OrderCommandModel::Create(command), None) == Ok::<
            Seq<OrderEventModel>,
            DomainErrorModel,
        >(
            seq![
                OrderEventModel::Created(
                    OrderCreatedModel {
                        identifier: command.identifier,
                        restaurant_identifier: command.restaurant_identifier,
                        status: OrderStatus::Created,
                        line_items: command.line_items,
                        is_final: false,
                    },
                ),
            ],
        ),
        state_of(OrderDecider, order_decide(OrderCommandModel::Create(command), None)->Ok_0)
            == Some(
            OrderModel {
                identifier: command.identifier,
                restaurant_identifier: command.restaurant_identifier,
                status: OrderStatus::Created,
                line_items: command.line_items,
            },
        ),
{
    let created = order_decide(OrderCommandModel::Create(command), None)->Ok_0;
    assert(created.drop_last() =~= Seq::empty());
    assert(fold_events(OrderDecider, None, created.drop_last()) == None::<OrderModel>);
}

/// The command to create an order, sent to an order that a history has
/// brought into existence, is rejected: it yields no event, and so never a
/// second event of creation.
pub proof fn creating_an_order_again_is_rejected(
    history: Seq<OrderEventModel>,
    command: CreateOrderModel,
)
    requires
        state_of(OrderDecider, history) is Some,
    ensures
        order_decide(OrderCommandModel::Create(command), state_of(OrderDecider, history)) == Err::<
            Seq<OrderEventModel>,
            DomainErrorModel,
        >(DomainErrorModel::OrderNotCreated(order_already_exists())),
{
}

} // verus!
