use crate::domain::api::{
    CreateOrderModel, CreateRestaurantModel, OrderCreatedModel, OrderPlacedModel, OrderStatus,
    PlaceOrderModel, RestaurantCreatedModel,
};
use crate::domain::{
    Command, CommandModel, EventModel, OrderAndRestaurantDecider, OrderAndRestaurantSaga,
};
use crate::framework::application::event_sourced_aggregate::{
    batch_events, new_events, reaction_follows_the_decision, second_command_sees_the_first,
    without_reaction_the_decision_stands, EventSourcedOrchestratingAggregate,
};
use crate::framework::domain::api::DomainErrorModel;
use crate::framework::domain::decider::{
    decision_on, fold_events, replay_in_parts, state_of, Decider,
};
use crate::framework::domain::saga::{reactions, Saga};
use crate::framework::infrastructure::event_repository::{target_events, EventRecordModel};
use crate::infrastructure::order_restaurant_event_repository::OrderAndRestaurantEventRepository;
use vstd::prelude::*;

verus! {

/// The aggregate of restaurants and orders.
pub type OrderAndRestaurantAggregate = EventSourcedOrchestratingAggregate<
    OrderAndRestaurantEventRepository,
    OrderAndRestaurantDecider,
    OrderAndRestaurantSaga,
>;

/// The event that an order was placed, as the command to place it asks.
pub open spec fn order_placed(command: PlaceOrderModel) -> EventModel {
    EventModel::OrderPlaced(
        OrderPlacedModel {
            identifier: command.identifier,
            order_identifier: command.order_identifier,
            line_items: command.line_items,
            is_final: false,
        },
    )
}

/// The command to create the order that was placed.
pub open spec fn create_placed_order(command: PlaceOrderModel) -> CommandModel {
    CommandModel::CreateOrder(
        CreateOrderModel {
            identifier: command.order_identifier,
            restaurant_identifier: command.identifier,
            line_items: command.line_items,
        },
    )
}

/// The event that the order that was placed was created.
pub open spec fn placed_order_created(command: PlaceOrderModel) -> EventModel {
    EventModel::OrderCreated(
        OrderCreatedModel {
            identifier: command.order_identifier,
            restaurant_identifier: command.identifier,
            status: OrderStatus::Created,
            line_items: command.line_items,
            is_final: false,
        },
    )
}

/// The event that a restaurant was created, as the command to create it
/// asks.
pub open spec fn restaurant_created(command: CreateRestaurantModel) -> EventModel {
    EventModel::RestaurantCreated(
        RestaurantCreatedModel {
            identifier: command.identifier,
            name: command.name,
            menu: command.menu,
            is_final: false,
        },
    )
}

/// An order placed at a restaurant that exists, where the order does not
/// exist yet, causes two events in this order: the order was placed at the
/// restaurant, and the order was created. The restaurant has to exist in the
/// events that the command sees; the order must not exist in its own stream
/// in the log.
pub proof fn placing_an_order_creates_it(
    decider: OrderAndRestaurantDecider,
    saga: OrderAndRestaurantSaga,
    log: Seq<EventRecordModel<EventModel>>,
    current_events: Seq<EventModel>,
    command: PlaceOrderModel,
)
    requires
        state_of(decider, current_events).0 is Some,
        state_of(
            decider,
            target_events::<Command, EventModel>(log, create_placed_order(command)),
        ).1 is None,
    ensures
        new_events(decider, saga, log, current_events, CommandModel::PlaceOrder(command)) == Ok::<
            Seq<EventModel>,
            DomainErrorModel,
        >(seq![order_placed(command), placed_order_created(command)]),
{
    let place = CommandModel::PlaceOrder(command);
    let create = create_placed_order(command);
    let initial = seq![order_placed(command)];
    assert(decision_on(decider, current_events, place) matches Ok(events) && events =~= initial);
    // The one reaction to the order placed is the command to create it.
    assert(initial.drop_last().len() == 0);
    assert(reactions(saga, initial.drop_last()).len() == 0);
    assert(saga.react_model(order_placed(command)) =~= seq![create]);
    assert(reactions(saga, initial) =~= seq![create]);
    reaction_follows_the_decision(decider, saga, log, current_events, place, initial, create);
    // The command to create the order sees the stream of the order and the
    // order placed, which tells nothing of the order.
    let stream = target_events::<Command, EventModel>(log, create);
    let visible = stream + initial;
    replay_in_parts(decider, decider.initial_state_model(), stream, initial);
    let before = state_of(decider, stream);
    assert(fold_events(decider, before, initial.drop_last()) == before);
    assert(state_of(decider, visible).1 is None);
    let created = seq![placed_order_created(command)];
    assert(decision_on(decider, visible, create) matches Ok(events) && events =~= created);
    assert(created.drop_last().len() == 0);
    assert(reactions(saga, created.drop_last()).len() == 0);
    assert(saga.react_model(placed_order_created(command)).len() == 0);
    assert(reactions(saga, created).len() == 0);
    without_reaction_the_decision_stands(decider, saga, log, visible, create);
    assert(initial + created =~= seq![order_placed(command), placed_order_created(command)]);
}

/// A batch that creates a restaurant and then places an order at it causes
/// three events in this order: the restaurant was created, the order was
/// placed, and the order was created. The order is placed though the
/// restaurant is not in the log: the second command sees what the first
/// caused. Neither the restaurant nor the order may exist in the log.
pub proof fn order_can_be_placed_at_a_restaurant_of_the_same_batch(
    decider: OrderAndRestaurantDecider,
    saga: OrderAndRestaurantSaga,
    log: Seq<EventRecordModel<EventModel>>,
    create: CreateRestaurantModel,
    place: PlaceOrderModel,
)
    requires
        place.identifier == create.identifier,
        state_of(
            decider,
            target_events::<Command, EventModel>(log, CommandModel::CreateRestaurant(create)),
        ).0 is None,
        state_of(
            decider,
            target_events::<Command, EventModel>(log, create_placed_order(place)),
        ).1 is None,
    ensures
        batch_events(
            decider,
            saga,
            log,
            seq![CommandModel::CreateRestaurant(create), CommandModel::PlaceOrder(place)],
        ) == Ok::<Seq<EventModel>, DomainErrorModel>(
            seq![restaurant_created(create), order_placed(place), placed_order_created(place)],
        ),
{
    let first = CommandModel::CreateRestaurant(create);
    let second = CommandModel::PlaceOrder(place);
    second_command_sees_the_first(decider, saga, log, first, second);
    // The restaurant is created, and nothing follows from that.
    let own = target_events::<Command, EventModel>(log, first);
    let earlier = seq![restaurant_created(create)];
    assert(decision_on(decider, own, first) matches Ok(events) && events =~= earlier);
    assert(earlier.drop_last().len() == 0);
    assert(reactions(saga, earlier.drop_last()).len() == 0);
    assert(saga.react_model(restaurant_created(create)).len() == 0);
    assert(reactions(saga, earlier).len() == 0);
    without_reaction_the_decision_stands(decider, saga, log, own, first);
    // The order is placed on the stream of the restaurant followed by the
    // creation of the restaurant.
    let stream = target_events::<Command, EventModel>(log, second);
    let visible = stream + earlier;
    replay_in_parts(decider, decider.initial_state_model(), stream, earlier);
    let before = state_of(decider, stream);
    assert(fold_events(decider, before, earlier.drop_last()) == before);
    assert(state_of(decider, visible).0 is Some);
    placing_an_order_creates_it(decider, saga, log, visible, place);
    assert(earlier + seq![order_placed(place), placed_order_created(place)] =~= seq![
        restaurant_created(create),
        order_placed(place),
        placed_order_created(place),
    ]);
}

} // verus!
