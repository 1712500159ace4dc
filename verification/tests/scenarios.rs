use fmodel_rust_postgres::application::order_restaurant_aggregate::OrderAndRestaurantAggregate;
use fmodel_rust_postgres::domain::api::{
    ChangeRestaurantMenu, CreateOrder, CreateRestaurant, MarkOrderAsPrepared, MenuId, MenuItem,
    MenuItemId, MenuItemName, Money, OrderCreated, OrderId, OrderLineItem, OrderLineItemId,
    OrderLineItemQuantity, OrderPlaced, OrderPrepared, OrderStatus, PlaceOrder, RestaurantCreated,
    RestaurantId, RestaurantMenu, RestaurantMenuChanged, RestaurantMenuCuisine, RestaurantName,
};
use fmodel_rust_postgres::domain::{
    order_restaurant_decider, order_restaurant_saga, Command, Event,
};
use fmodel_rust_postgres::framework::application::event_sourced_aggregate::{
    AggregateError, EventSourcedOrchestratingAggregate,
};
use fmodel_rust_postgres::framework::domain::api::DomainError;
use fmodel_rust_postgres::infrastructure::order_restaurant_event_repository::OrderAndRestaurantEventRepository;
use uuid::Uuid;

fn aggregate() -> OrderAndRestaurantAggregate {
    EventSourcedOrchestratingAggregate::new(
        OrderAndRestaurantEventRepository::new(),
        order_restaurant_decider(),
        order_restaurant_saga(),
    )
}

fn events(handled: Result<Vec<(Event, Uuid)>, AggregateError<DomainError>>) -> Vec<Event> {
    handled.unwrap().into_iter().map(|(e, _)| e).collect()
}

fn menu() -> RestaurantMenu {
    RestaurantMenu {
        menu_id: MenuId(Uuid::parse_str("02f09a3f-1624-3b1d-8409-44eff7708210").unwrap()),
        items: vec![MenuItem {
            id: MenuItemId(Uuid::parse_str("02f09a3f-1624-3b1d-8409-44eff7708210").unwrap()),
            name: MenuItemName("Item 1".to_string()),
            price: Money(100u64),
        }],
        cuisine: RestaurantMenuCuisine::Vietnamese,
    }
}

fn line_items() -> Vec<OrderLineItem> {
    vec![OrderLineItem {
        id: OrderLineItemId(Uuid::parse_str("02f09a3f-1624-3b1d-8409-44eff7708210").unwrap()),
        quantity: OrderLineItemQuantity(1),
        menu_item_id: MenuItemId(Uuid::parse_str("02f09a3f-1624-3b1d-8409-44eff7708210").unwrap()),
        name: MenuItemName("Item 1".to_string()),
    }]
}

/// The restaurant that the scenarios find in the store.
fn existing_restaurant() -> RestaurantId {
    RestaurantId(Uuid::parse_str("e48d4d9e-403e-453f-b1ba-328e0ce23737").unwrap())
}

/// A restaurant that no scenario finds in the store.
fn new_restaurant() -> RestaurantId {
    RestaurantId(Uuid::parse_str("02f09a3f-1624-3b1d-8409-44eff7708208").unwrap())
}

fn order() -> OrderId {
    OrderId(Uuid::parse_str("02f09a3f-1624-3b1d-8409-44eff7708210").unwrap())
}

fn create(identifier: RestaurantId, name: &str) -> Command {
    Command::CreateRestaurant(CreateRestaurant {
        identifier,
        name: RestaurantName(name.to_string()),
        menu: menu(),
    })
}

/// An aggregate on a store that holds one restaurant.
fn aggregate_with_restaurant() -> OrderAndRestaurantAggregate {
    let mut aggregate = aggregate();
    aggregate.handle(&create(existing_restaurant(), "Pljeska")).unwrap();
    aggregate
}

#[test]
fn create_restaurant_test() {
    let restaurant_created_event = Event::RestaurantCreated(RestaurantCreated {
        identifier: new_restaurant(),
        name: RestaurantName("Test Restaurant".to_string()),
        menu: menu(),
        is_final: false,
    });

    let mut aggregate = aggregate_with_restaurant();
    assert_eq!(
        Some(restaurant_created_event),
        events(aggregate.handle(&create(new_restaurant(), "Test Restaurant")))
            .into_iter()
            .next()
    );
}

#[test]
fn create_restaurant_error_test() {
    let mut aggregate = aggregate_with_restaurant();
    assert_eq!(
        Err(AggregateError::Rejected(DomainError::RestaurantNotCreated(
            "Failed to create the Restaurant. Restaurant already exists!".to_string()
        ))),
        aggregate.handle(&create(existing_restaurant(), "Test Restaurant"))
    );
}

#[test]
fn change_menu_test() {
    let change_restaurant_menu = Command::ChangeRestaurantMenu(ChangeRestaurantMenu {
        identifier: existing_restaurant(),
        menu: menu(),
    });
    let restaurant_menu_changed_event = Event::RestaurantMenuChanged(RestaurantMenuChanged {
        identifier: existing_restaurant(),
        menu: menu(),
        is_final: false,
    });

    let mut aggregate = aggregate_with_restaurant();
    assert_eq!(
        Some(restaurant_menu_changed_event),
        events(aggregate.handle(&change_restaurant_menu)).into_iter().next()
    );
}

#[test]
fn change_menu_error_test() {
    let change_restaurant_menu = Command::ChangeRestaurantMenu(ChangeRestaurantMenu {
        identifier: new_restaurant(),
        menu: menu(),
    });

    let mut aggregate = aggregate_with_restaurant();
    assert_eq!(
        Err(AggregateError::Rejected(DomainError::RestaurantMenuNotChanged(
            "Failed to change the menu. Restaurant does not exist!".to_string()
        ))),
        aggregate.handle(&change_restaurant_menu)
    );
}

#[test]
fn place_order_test() {
    let place_order = Command::PlaceOrder(PlaceOrder {
        identifier: existing_restaurant(),
        order_identifier: order(),
        line_items: line_items(),
    });
    let order_placed_event = Event::OrderPlaced(OrderPlaced {
        identifier: existing_restaurant(),
        order_identifier: order(),
        line_items: line_items(),
        is_final: false,
    });
    let order_created_event = Event::OrderCreated(OrderCreated {
        identifier: order(),
        restaurant_identifier: existing_restaurant(),
        status: OrderStatus::Created,
        line_items: line_items(),
        is_final: false,
    });

    let mut aggregate = aggregate_with_restaurant();
    let mut result = events(aggregate.handle(&place_order)).into_iter();
    assert_eq!(Some(order_placed_event), result.next(),);
    assert_eq!(Some(order_created_event), result.next(),);
    assert_eq!(None, result.next());
}

#[test]
fn place_order_error_test() {
    let place_order = Command::PlaceOrder(PlaceOrder {
        identifier: new_restaurant(),
        order_identifier: order(),
        line_items: line_items(),
    });

    let mut aggregate = aggregate_with_restaurant();
    assert_eq!(
        Err(AggregateError::Rejected(DomainError::OrderNotPlaced(
            "Failed to place the order. Restaurant does not exist!".to_string()
        ))),
        aggregate.handle(&place_order)
    );
}

#[test]
fn create_restaurant_and_place_order_test() {
    let place_order = Command::PlaceOrder(PlaceOrder {
        identifier: new_restaurant(),
        order_identifier: order(),
        line_items: line_items(),
    });
    let restaurant_created_event = Event::RestaurantCreated(RestaurantCreated {
        identifier: new_restaurant(),
        name: RestaurantName("Test Restaurant".to_string()),
        menu: menu(),
        is_final: false,
    });
    let order_placed_event = Event::OrderPlaced(OrderPlaced {
        identifier: new_restaurant(),
        order_identifier: order(),
        line_items: line_items(),
        is_final: false,
    });
    let order_created_event = Event::OrderCreated(OrderCreated {
        identifier: order(),
        restaurant_identifier: new_restaurant(),
        status: OrderStatus::Created,
        line_items: line_items(),
        is_final: false,
    });

    let mut aggregate = aggregate_with_restaurant();
    let mut result = events(
        aggregate.handle_all(&[create(new_restaurant(), "Test Restaurant"), place_order]),
    )
    .into_iter();
    assert_eq!(Some(restaurant_created_event), result.next(),);
    assert_eq!(Some(order_placed_event), result.next(),);
    assert_eq!(Some(order_created_event), result.next(),);
    assert_eq!(None, result.next());
}

#[test]
fn creating_a_restaurant_on_an_empty_store_returns_exactly_its_creation() {
    let mut aggregate = aggregate();
    assert_eq!(
        vec![Event::RestaurantCreated(RestaurantCreated {
            identifier: new_restaurant(),
            name: RestaurantName("Test".to_string()),
            menu: menu(),
            is_final: false,
        })],
        events(aggregate.handle(&create(new_restaurant(), "Test")))
    );
    assert_eq!(1, aggregate.repository.records.len());
}

#[test]
fn creating_a_restaurant_twice_is_rejected_the_second_time() {
    let mut aggregate = aggregate();
    assert!(aggregate.handle(&create(new_restaurant(), "Test")).is_ok());
    let second = aggregate.handle(&create(new_restaurant(), "Test"));
    match second {
        Err(AggregateError::Rejected(reason)) => {
            assert!(reason.message().contains("already exists"));
        }
        other => panic!("the second creation was not rejected: {:?}", other),
    }
    // Nothing but the first creation was recorded.
    assert_eq!(1, aggregate.repository.records.len());
}

#[test]
fn a_batch_lets_a_later_command_see_what_an_earlier_one_caused() {
    let restaurant = RestaurantId(Uuid::parse_str("00000000-0000-0000-0000-0000000000b2").unwrap());
    let order = OrderId(Uuid::parse_str("00000000-0000-0000-0000-0000000000c2").unwrap());
    let place_order = Command::PlaceOrder(PlaceOrder {
        identifier: restaurant,
        order_identifier: order,
        line_items: line_items(),
    });

    // Alone, the order cannot be placed: the restaurant does not exist.
    let mut alone = aggregate();
    assert!(matches!(
        alone.handle(&place_order),
        Err(AggregateError::Rejected(DomainError::OrderNotPlaced(_)))
    ));

    // Behind the creation of the restaurant in one batch, it can.
    let mut aggregate = aggregate();
    let handled = events(aggregate.handle_all(&[create(restaurant, "Second"), place_order]));
    assert_eq!(
        vec![
            Event::RestaurantCreated(RestaurantCreated {
                identifier: restaurant,
                name: RestaurantName("Second".to_string()),
                menu: menu(),
                is_final: false,
            }),
            Event::OrderPlaced(OrderPlaced {
                identifier: restaurant,
                order_identifier: order,
                line_items: line_items(),
                is_final: false,
            }),
            Event::OrderCreated(OrderCreated {
                identifier: order,
                restaurant_identifier: restaurant,
                status: OrderStatus::Created,
                line_items: line_items(),
                is_final: false,
            }),
        ],
        handled
    );
    assert_eq!(3, aggregate.repository.records.len());
}

#[test]
fn an_empty_batch_causes_nothing() {
    let mut aggregate = aggregate_with_restaurant();
    assert_eq!(Ok(vec![]), aggregate.handle_all(&[]));
    assert_eq!(1, aggregate.repository.records.len());
}

#[test]
fn a_batch_with_a_rejected_command_records_nothing() {
    let mut aggregate = aggregate();
    let handled = aggregate.handle_all(&[
        create(new_restaurant(), "Test"),
        create(new_restaurant(), "Test again"),
    ]);
    assert_eq!(
        Err(AggregateError::Rejected(DomainError::RestaurantNotCreated(
            "Failed to create the Restaurant. Restaurant already exists!".to_string()
        ))),
        handled
    );
    assert_eq!(0, aggregate.repository.records.len());
}

#[test]
fn a_rejected_reaction_rejects_the_command_that_caused_it() {
    let mut aggregate = aggregate_with_restaurant();
    let place_order = Command::PlaceOrder(PlaceOrder {
        identifier: existing_restaurant(),
        order_identifier: order(),
        line_items: line_items(),
    });
    assert_eq!(2, events(aggregate.handle(&place_order)).len());
    // The same order placed again: the restaurant takes it, the order refuses
    // to be created twice, and so nothing comes of it.
    assert_eq!(
        Err(AggregateError::Rejected(DomainError::OrderNotCreated(
            "Failed to create the Order. Order already exists!".to_string()
        ))),
        aggregate.handle(&place_order)
    );
    assert_eq!(3, aggregate.repository.records.len());
}

#[test]
fn an_order_is_prepared_once() {
    let mut aggregate = aggregate_with_restaurant();
    let place_order = Command::PlaceOrder(PlaceOrder {
        identifier: existing_restaurant(),
        order_identifier: order(),
        line_items: line_items(),
    });
    aggregate.handle(&place_order).unwrap();

    let mark = Command::MarkOrderAsPrepared(MarkOrderAsPrepared { identifier: order() });
    assert_eq!(
        vec![Event::OrderPrepared(OrderPrepared {
            identifier: order(),
            status: OrderStatus::Prepared,
            is_final: true,
        })],
        events(aggregate.handle(&mark))
    );
    assert_eq!(
        Err(AggregateError::Rejected(DomainError::OrderNotPrepared(
            "Failed to mark the order as prepared. Order does not exist or is not in the correct state!"
                .to_string()
        ))),
        aggregate.handle(&mark)
    );
}

#[test]
fn a_batch_replays_the_history_before_its_own_events() {
    let mut aggregate = aggregate_with_restaurant();
    let place_order = Command::PlaceOrder(PlaceOrder {
        identifier: existing_restaurant(),
        order_identifier: order(),
        line_items: line_items(),
    });
    aggregate.handle(&place_order).unwrap();

    // The second command sees the order created and then prepared, in that
    // order, and so is turned down.
    let mark = Command::MarkOrderAsPrepared(MarkOrderAsPrepared { identifier: order() });
    let again = Command::MarkOrderAsPrepared(MarkOrderAsPrepared { identifier: order() });
    assert!(matches!(
        aggregate.handle_all(&[mark, again]),
        Err(AggregateError::Rejected(DomainError::OrderNotPrepared(_)))
    ));
    assert_eq!(3, aggregate.repository.records.len());
}

#[test]
fn an_order_that_does_not_exist_cannot_be_prepared() {
    let mut aggregate = aggregate_with_restaurant();
    let mark = Command::MarkOrderAsPrepared(MarkOrderAsPrepared { identifier: order() });
    assert!(matches!(
        aggregate.handle(&mark),
        Err(AggregateError::Rejected(DomainError::OrderNotPrepared(_)))
    ));
}

#[test]
fn an_order_can_be_created_by_its_own_command() {
    let mut aggregate = aggregate();
    let create_order = Command::CreateOrder(CreateOrder {
        identifier: order(),
        restaurant_identifier: existing_restaurant(),
        line_items: line_items(),
    });
    assert_eq!(
        vec![Event::OrderCreated(OrderCreated {
            identifier: order(),
            restaurant_identifier: existing_restaurant(),
            status: OrderStatus::Created,
            line_items: line_items(),
            is_final: false,
        })],
        events(aggregate.handle(&create_order))
    );
    assert!(matches!(
        aggregate.handle(&create_order),
        Err(AggregateError::Rejected(DomainError::OrderNotCreated(_)))
    ));
}

#[test]
fn computing_new_events_records_nothing() {
    let aggregate = aggregate_with_restaurant();
    let place_order = Command::PlaceOrder(PlaceOrder {
        identifier: existing_restaurant(),
        order_identifier: order(),
        line_items: line_items(),
    });
    let history = vec![Event::RestaurantCreated(RestaurantCreated {
        identifier: existing_restaurant(),
        name: RestaurantName("Pljeska".to_string()),
        menu: menu(),
        is_final: false,
    })];
    let computed = aggregate.compute_new_events(&history, &place_order).unwrap();
    assert_eq!(2, computed.len());
    assert!(matches!(computed[0], Event::OrderPlaced(_)));
    assert!(matches!(computed[1], Event::OrderCreated(_)));
    assert_eq!(1, aggregate.repository.records.len());
}
