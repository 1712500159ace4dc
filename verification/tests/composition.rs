#![allow(deprecated)]

use fmodel_rust::decider::{Decider as Closures, EventComputation};
use fmodel_rust::saga::Saga as Reactions;
use fmodel_rust::Sum;
use fmodel_rust_postgres::domain::api::{
    ChangeRestaurantMenu, CreateOrder, CreateRestaurant, MarkOrderAsPrepared, MenuId, MenuItem,
    MenuItemId, MenuItemName, Money, OrderCommand, OrderCreated, OrderEvent, OrderId,
    OrderLineItem, OrderLineItemId, OrderLineItemQuantity, OrderPlaced, OrderPrepared,
    OrderStatus, PlaceOrder, RestaurantCommand, RestaurantCreated, RestaurantEvent,
    RestaurantId, RestaurantMenu, RestaurantMenuChanged, RestaurantMenuCuisine, RestaurantName,
};
use fmodel_rust_postgres::domain::order_decider::{order_decider, Order};
use fmodel_rust_postgres::domain::order_saga::order_saga;
use fmodel_rust_postgres::domain::restaurant_decider::{restaurant_decider, Restaurant};
use fmodel_rust_postgres::domain::restaurant_saga::restaurant_saga;
use fmodel_rust_postgres::domain::{
    command_to_sum, event_to_restaurant_event, event_to_sum, event_to_sum2,
    order_restaurant_decider, order_restaurant_saga, sum_to_command, sum_to_event, Command, Event,
};
use fmodel_rust_postgres::framework::domain::api::{
    DeciderType, DomainError, EventType, Identifier, IsFinal,
};
use fmodel_rust_postgres::framework::domain::decider::{
    combine, compute_new_events, into_first, into_second, Decider,
};
use fmodel_rust_postgres::framework::domain::saga::Saga;
use uuid::Uuid;

fn id(last: u128) -> Uuid {
    Uuid::from_u128(last)
}

fn menu() -> RestaurantMenu {
    RestaurantMenu {
        menu_id: MenuId(id(10)),
        items: vec![MenuItem {
            id: MenuItemId(id(11)),
            name: MenuItemName("supa".to_string()),
            price: Money(10),
        }],
        cuisine: RestaurantMenuCuisine::Vietnamese,
    }
}

fn lines() -> Vec<OrderLineItem> {
    vec![OrderLineItem {
        id: OrderLineItemId(id(20)),
        quantity: OrderLineItemQuantity(2),
        menu_item_id: MenuItemId(id(11)),
        name: MenuItemName("supa".to_string()),
    }]
}

fn restaurant() -> Restaurant {
    Restaurant {
        identifier: RestaurantId(id(1)),
        name: RestaurantName("Pljeska".to_string()),
        menu: menu(),
    }
}

fn order(status: OrderStatus) -> Order {
    Order {
        identifier: OrderId(id(2)),
        restaurant_identifier: RestaurantId(id(1)),
        status,
        line_items: lines(),
    }
}

fn commands() -> Vec<Command> {
    vec![
        Command::CreateRestaurant(CreateRestaurant {
            identifier: RestaurantId(id(1)),
            name: RestaurantName("Pljeska".to_string()),
            menu: menu(),
        }),
        Command::ChangeRestaurantMenu(ChangeRestaurantMenu {
            identifier: RestaurantId(id(1)),
            menu: menu(),
        }),
        Command::PlaceOrder(PlaceOrder {
            identifier: RestaurantId(id(1)),
            order_identifier: OrderId(id(2)),
            line_items: lines(),
        }),
        Command::CreateOrder(CreateOrder {
            identifier: OrderId(id(2)),
            restaurant_identifier: RestaurantId(id(1)),
            line_items: lines(),
        }),
        Command::MarkOrderAsPrepared(MarkOrderAsPrepared { identifier: OrderId(id(2)) }),
    ]
}

fn events() -> Vec<Event> {
    vec![
        Event::RestaurantCreated(RestaurantCreated {
            identifier: RestaurantId(id(1)),
            name: RestaurantName("Pljeska".to_string()),
            menu: menu(),
            is_final: false,
        }),
        Event::RestaurantMenuChanged(RestaurantMenuChanged {
            identifier: RestaurantId(id(1)),
            menu: menu(),
            is_final: false,
        }),
        Event::OrderPlaced(OrderPlaced {
            identifier: RestaurantId(id(1)),
            order_identifier: OrderId(id(2)),
            line_items: lines(),
            is_final: false,
        }),
        Event::OrderCreated(OrderCreated {
            identifier: OrderId(id(2)),
            restaurant_identifier: RestaurantId(id(1)),
            status: OrderStatus::Created,
            line_items: lines(),
            is_final: false,
        }),
        Event::OrderPrepared(OrderPrepared {
            identifier: OrderId(id(2)),
            status: OrderStatus::Prepared,
            is_final: true,
        }),
    ]
}

fn states() -> Vec<(Option<Restaurant>, Option<Order>)> {
    vec![
        (None, None),
        (Some(restaurant()), None),
        (None, Some(order(OrderStatus::Created))),
        (Some(restaurant()), Some(order(OrderStatus::Created))),
        (Some(restaurant()), Some(order(OrderStatus::Prepared))),
    ]
}

/// The deciders of this library, joined by the combinators of `fmodel_rust`.
fn joined_by_closures<'a>(
) -> Closures<'a, Command, (Option<Restaurant>, Option<Order>), Event, DomainError> {
    let restaurants: Closures<'a, RestaurantCommand, Option<Restaurant>, RestaurantEvent, DomainError> =
        Closures {
            decide: Box::new(|command, state| restaurant_decider().decide(command, state)),
            evolve: Box::new(|state, event| restaurant_decider().evolve(state, event)),
            initial_state: Box::new(|| restaurant_decider().initial_state()),
        };
    let orders: Closures<'a, OrderCommand, Option<Order>, OrderEvent, DomainError> = Closures {
        decide: Box::new(|command, state| order_decider().decide(command, state)),
        evolve: Box::new(|state, event| order_decider().evolve(state, event)),
        initial_state: Box::new(|| order_decider().initial_state()),
    };
    restaurants
        .combine(orders)
        .map_command(command_to_sum)
        .map_event(event_to_sum, sum_to_event)
}

/// The sagas of this library, joined by the combinators of `fmodel_rust`.
fn reactions_joined_by_closures<'a>() -> Reactions<'a, Event, Command> {
    let restaurants: Reactions<'a, OrderEvent, RestaurantCommand> =
        Reactions { react: Box::new(|event| restaurant_saga().react(event)) };
    let orders: Reactions<'a, RestaurantEvent, OrderCommand> =
        Reactions { react: Box::new(|event| order_saga().react(event)) };
    restaurants
        .combine(orders)
        .map_action_result(event_to_sum2)
        .map_action(sum_to_command)
}

#[test]
fn the_combined_decider_decides_as_the_closures_do() {
    let closures = joined_by_closures();
    let decider = order_restaurant_decider();
    for command in commands() {
        for state in states() {
            assert_eq!((closures.decide)(&command, &state), decider.decide(&command, &state));
        }
    }
}

#[test]
fn the_combined_decider_evolves_as_the_closures_do() {
    let closures = joined_by_closures();
    let decider = order_restaurant_decider();
    assert_eq!((closures.initial_state)(), decider.initial_state());
    for event in events() {
        for state in states() {
            assert_eq!((closures.evolve)(&state, &event), decider.evolve(&state, &event));
        }
    }
}

#[test]
fn the_combined_decider_computes_new_events_as_the_closures_do() {
    let closures = joined_by_closures();
    let decider = order_restaurant_decider();
    let all = events();
    for command in commands() {
        for upto in 0..all.len() + 1 {
            assert_eq!(
                closures.compute_new_events(&all[..upto], &command),
                compute_new_events(&decider, &all[..upto], &command)
            );
        }
    }
}

#[test]
fn the_combined_saga_reacts_as_the_closures_do() {
    let closures = reactions_joined_by_closures();
    let saga = order_restaurant_saga();
    for event in events() {
        assert_eq!((closures.react)(&event), saga.react(&event));
    }
}

#[test]
fn the_combined_saga_reacts_to_a_placed_order_alone() {
    let saga = order_restaurant_saga();
    for event in events() {
        let reactions = saga.react(&event);
        match event {
            Event::OrderPlaced(placed) => assert_eq!(
                vec![Command::CreateOrder(CreateOrder {
                    identifier: placed.order_identifier,
                    restaurant_identifier: placed.identifier,
                    line_items: placed.line_items,
                })],
                reactions
            ),
            _ => assert_eq!(Vec::<Command>::new(), reactions),
        }
    }
}

#[test]
fn an_event_of_one_side_leaves_the_state_of_the_other_side() {
    let decider = order_restaurant_decider();
    for event in events() {
        for state in states() {
            let next = decider.evolve(&state, &event);
            if event.decider_type() == "Restaurant" {
                assert_eq!(state.1, next.1);
            } else {
                assert_eq!(state.0, next.0);
            }
        }
    }
}

#[test]
fn a_command_of_one_side_is_decided_on_the_state_of_that_side_alone() {
    let decider = order_restaurant_decider();
    for command in commands() {
        for state in states() {
            for other in states() {
                let same_side = if command.decider_type() == "Restaurant" {
                    (state.0.clone(), other.1.clone())
                } else {
                    (other.0.clone(), state.1.clone())
                };
                assert_eq!(decider.decide(&command, &state), decider.decide(&command, &same_side));
            }
        }
    }
}

#[test]
fn a_command_yields_events_of_its_own_stream() {
    let decider = order_restaurant_decider();
    for command in commands() {
        for state in states() {
            if let Ok(decided) = decider.decide(&command, &state) {
                assert_eq!(1, decided.len());
                for event in decided {
                    assert_eq!(command.decider_type(), event.decider_type());
                    assert_eq!(command.identifier(), event.identifier());
                }
            }
        }
    }
}

#[test]
fn a_generic_combination_routes_by_side() {
    let combined = combine(restaurant_decider(), order_decider());
    let state = (Some(restaurant()), None);
    let create_order = OrderCommand::Create(CreateOrder {
        identifier: OrderId(id(2)),
        restaurant_identifier: RestaurantId(id(1)),
        line_items: lines(),
    });
    let decided = combined.decide(&Sum::Second(create_order), &state).unwrap();
    assert_eq!(
        vec![Sum::Second(OrderEvent::Created(OrderCreated {
            identifier: OrderId(id(2)),
            restaurant_identifier: RestaurantId(id(1)),
            status: OrderStatus::Created,
            line_items: lines(),
            is_final: false,
        }))],
        decided
    );
    let next = combined.evolve(&state, &decided[0]);
    assert_eq!((Some(restaurant()), Some(order(OrderStatus::Created))), next);
    assert_eq!((None, None), combined.initial_state());
    assert_eq!(
        Err(DomainError::RestaurantNotCreated(
            "Failed to create the Restaurant. Restaurant already exists!".to_string()
        )),
        combined.decide(
            &Sum::First(RestaurantCommand::CreateRestaurant(CreateRestaurant {
                identifier: RestaurantId(id(1)),
                name: RestaurantName("Pljeska".to_string()),
                menu: menu(),
            })),
            &state
        )
    );
}

#[test]
fn items_are_wrapped_in_their_order() {
    assert_eq!(
        vec![Sum::<u32, bool>::First(3), Sum::First(1), Sum::First(2)],
        into_first::<u32, bool>(vec![3, 1, 2])
    );
    assert_eq!(
        vec![Sum::<u32, bool>::Second(true), Sum::Second(false)],
        into_second::<u32, bool>(vec![true, false])
    );
    assert_eq!(Vec::<Sum<u32, bool>>::new(), into_first::<u32, bool>(vec![]));
}

#[test]
fn routing_there_and_back_gives_the_same_event() {
    for event in events() {
        assert_eq!(event, sum_to_event(&event_to_sum(&event)));
        let routed = match event_to_sum2(&event) {
            Sum::First(of_order) => Sum::Second(of_order),
            Sum::Second(of_restaurant) => Sum::First(of_restaurant),
        };
        assert_eq!(event_to_sum(&event), routed);
        match event_to_sum(&event) {
            Sum::First(of_restaurant) => {
                assert_eq!(Some(of_restaurant), event_to_restaurant_event(&event))
            }
            Sum::Second(_) => assert_eq!(None, event_to_restaurant_event(&event)),
        }
    }
}

#[test]
fn routing_there_and_back_gives_the_same_command() {
    for command in commands() {
        let routed = match command_to_sum(&command) {
            Sum::First(of_restaurant) => Sum::Second(of_restaurant),
            Sum::Second(of_order) => Sum::First(of_order),
        };
        assert_eq!(command, sum_to_command(&routed));
    }
}

#[test]
fn commands_are_routed_to_their_side() {
    let routed: Vec<bool> = commands()
        .iter()
        .map(|command| matches!(command_to_sum(command), Sum::First(_)))
        .collect();
    assert_eq!(vec![true, true, true, false, false], routed);
}

#[test]
fn events_name_their_type_stream_and_kind() {
    let described: Vec<(String, String, Uuid, bool)> = events()
        .iter()
        .map(|event| {
            (event.event_type(), event.decider_type(), event.identifier(), event.is_final())
        })
        .collect();
    assert_eq!(
        vec![
            ("RestaurantCreated".to_string(), "Restaurant".to_string(), id(1), false),
            ("RestaurantMenuChanged".to_string(), "Restaurant".to_string(), id(1), false),
            ("OrderPlaced".to_string(), "Restaurant".to_string(), id(1), false),
            ("OrderCreated".to_string(), "Order".to_string(), id(2), false),
            ("OrderPrepared".to_string(), "Order".to_string(), id(2), true),
        ],
        described
    );
}

#[test]
fn commands_name_their_stream_and_kind() {
    let described: Vec<(String, Uuid)> = commands()
        .iter()
        .map(|command| (command.decider_type(), command.identifier()))
        .collect();
    assert_eq!(
        vec![
            ("Restaurant".to_string(), id(1)),
            ("Restaurant".to_string(), id(1)),
            ("Restaurant".to_string(), id(1)),
            ("Order".to_string(), id(2)),
            ("Order".to_string(), id(2)),
        ],
        described
    );
}
