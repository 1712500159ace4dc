use fmodel_rust_postgres::domain::api::{
    ChangeRestaurantMenu, CreateOrder, CreateRestaurant, MenuId, MenuItem, MenuItemId,
    MenuItemName, Money, OrderCreated, OrderId, OrderPrepared, OrderStatus, RestaurantCreated,
    RestaurantId, RestaurantMenu, RestaurantMenuChanged, RestaurantMenuCuisine, RestaurantName,
};
use fmodel_rust_postgres::domain::{order_restaurant_decider, Command, Event};
use fmodel_rust_postgres::framework::application::event_sourced_aggregate::{
    strip_versions, AggregateError, EventSourcedAggregate,
};
use fmodel_rust_postgres::framework::domain::api::DomainError;
use fmodel_rust_postgres::framework::infrastructure::errors::ErrorMessage;
use fmodel_rust_postgres::framework::infrastructure::event_repository::{
    append_events, append_events_in_chain, fetch_stream, fetch_version, is_closed, same_version,
    EventOrchestratingRepository, EventRecord, EventRepository,
};
use fmodel_rust_postgres::infrastructure::order_restaurant_event_repository::{
    closed_stream, conflict, OrderAndRestaurantEventRepository,
};
use uuid::Uuid;

fn id(last: u128) -> Uuid {
    Uuid::from_u128(last)
}

fn menu() -> RestaurantMenu {
    RestaurantMenu {
        menu_id: MenuId(id(10)),
        items: vec![MenuItem {
            id: MenuItemId(id(11)),
            name: MenuItemName("supa".to_string()),
            price: Money(10),
        }],
        cuisine: RestaurantMenuCuisine::Vietnamese,
    }
}

fn restaurant_created(restaurant: u128) -> Event {
    Event::RestaurantCreated(RestaurantCreated {
        identifier: RestaurantId(id(restaurant)),
        name: RestaurantName("Pljeska".to_string()),
        menu: menu(),
        is_final: false,
    })
}

fn menu_changed(restaurant: u128) -> Event {
    Event::RestaurantMenuChanged(RestaurantMenuChanged {
        identifier: RestaurantId(id(restaurant)),
        menu: menu(),
        is_final: false,
    })
}

fn order_created(order: u128) -> Event {
    Event::OrderCreated(OrderCreated {
        identifier: OrderId(id(order)),
        restaurant_identifier: RestaurantId(id(1)),
        status: OrderStatus::Created,
        line_items: vec![],
        is_final: false,
    })
}

fn order_prepared(order: u128) -> Event {
    Event::OrderPrepared(OrderPrepared {
        identifier: OrderId(id(order)),
        status: OrderStatus::Prepared,
        is_final: true,
    })
}

fn change_menu(restaurant: u128) -> Command {
    Command::ChangeRestaurantMenu(ChangeRestaurantMenu {
        identifier: RestaurantId(id(restaurant)),
        menu: menu(),
    })
}

fn create_restaurant(restaurant: u128) -> Command {
    Command::CreateRestaurant(CreateRestaurant {
        identifier: RestaurantId(id(restaurant)),
        name: RestaurantName("Pljeska".to_string()),
        menu: menu(),
    })
}

fn create_order(order: u128) -> Command {
    Command::CreateOrder(CreateOrder {
        identifier: OrderId(id(order)),
        restaurant_identifier: RestaurantId(id(1)),
        line_items: vec![],
    })
}

fn fetch(repository: &OrderAndRestaurantEventRepository, command: &Command) -> Vec<(Event, Uuid)> {
    EventOrchestratingRepository::fetch_events(repository, command).unwrap()
}

fn save(repository: &mut OrderAndRestaurantEventRepository, events: &[Event]) -> Vec<(Event, Uuid)> {
    EventOrchestratingRepository::save(repository, events).unwrap()
}

#[test]
fn a_new_store_holds_no_event() {
    let repository = OrderAndRestaurantEventRepository::new();
    assert_eq!(0, repository.records.len());
    assert_eq!(Vec::<(Event, Uuid)>::new(), fetch(&repository, &change_menu(1)));
    assert_eq!(
        Ok(None),
        EventOrchestratingRepository::fetch_latest_version(&repository, &menu_changed(1))
    );
}

#[test]
fn saved_events_come_back_in_their_order_with_their_versions() {
    let mut repository = OrderAndRestaurantEventRepository::new();
    let saved = save(&mut repository, &[restaurant_created(1), menu_changed(1)]);
    assert_eq!(
        vec![restaurant_created(1), menu_changed(1)],
        saved.iter().map(|(event, _)| event.clone()).collect::<Vec<Event>>()
    );
    assert_ne!(saved[0].1, saved[1].1);
    assert_eq!(saved, fetch(&repository, &change_menu(1)));
    assert_eq!(
        Ok(Some(saved[1].1)),
        EventOrchestratingRepository::fetch_latest_version(&repository, &menu_changed(1))
    );
}

#[test]
fn an_entry_records_the_event_and_points_to_its_predecessor() {
    let mut repository = OrderAndRestaurantEventRepository::new();
    let first = save(&mut repository, &[restaurant_created(1), order_created(2)]);
    let second = save(&mut repository, &[menu_changed(1), order_prepared(2)]);
    assert_eq!(
        vec![
            EventRecord {
                event_type: "RestaurantCreated".to_string(),
                event_id: first[0].1,
                decider_type: "Restaurant".to_string(),
                decider_id: id(1),
                data: restaurant_created(1),
                command_id: first[0].1,
                previous_id: None,
                is_final: false,
            },
            EventRecord {
                event_type: "OrderCreated".to_string(),
                event_id: first[1].1,
                decider_type: "Order".to_string(),
                decider_id: id(2),
                data: order_created(2),
                command_id: first[1].1,
                previous_id: None,
                is_final: false,
            },
            EventRecord {
                event_type: "RestaurantMenuChanged".to_string(),
                event_id: second[0].1,
                decider_type: "Restaurant".to_string(),
                decider_id: id(1),
                data: menu_changed(1),
                command_id: second[0].1,
                previous_id: Some(first[0].1),
                is_final: false,
            },
            EventRecord {
                event_type: "OrderPrepared".to_string(),
                event_id: second[1].1,
                decider_type: "Order".to_string(),
                decider_id: id(2),
                data: order_prepared(2),
                command_id: second[1].1,
                previous_id: Some(first[1].1),
                is_final: true,
            },
        ],
        repository.records
    );
}

#[test]
fn events_of_one_batch_are_chained_within_their_own_stream() {
    let mut repository = OrderAndRestaurantEventRepository::new();
    let saved = save(
        &mut repository,
        &[restaurant_created(1), order_created(2), menu_changed(1), restaurant_created(3)],
    );
    let previous: Vec<Option<Uuid>> =
        repository.records.iter().map(|record| record.previous_id).collect();
    assert_eq!(vec![None, None, Some(saved[0].1), None], previous);
}

#[test]
fn a_stream_is_told_apart_by_kind_and_by_entity() {
    let mut repository = OrderAndRestaurantEventRepository::new();
    // A restaurant and an order under the same identifier, and another
    // restaurant.
    let saved = save(
        &mut repository,
        &[restaurant_created(1), order_created(1), restaurant_created(2), menu_changed(1)],
    );
    assert_eq!(
        vec![saved[0].clone(), saved[3].clone()],
        fetch(&repository, &change_menu(1))
    );
    assert_eq!(vec![saved[1].clone()], fetch(&repository, &create_order(1)));
    assert_eq!(vec![saved[2].clone()], fetch(&repository, &change_menu(2)));
    assert_eq!(Vec::<(Event, Uuid)>::new(), fetch(&repository, &create_order(2)));
}

#[test]
fn saving_no_event_changes_nothing() {
    let mut repository = OrderAndRestaurantEventRepository::new();
    save(&mut repository, &[restaurant_created(1)]);
    assert_eq!(Vec::<(Event, Uuid)>::new(), save(&mut repository, &[]));
    assert_eq!(1, repository.records.len());
}

#[test]
fn the_log_only_grows() {
    let mut repository = OrderAndRestaurantEventRepository::new();
    save(&mut repository, &[restaurant_created(1), order_created(2)]);
    let before: Vec<Uuid> = repository.records.iter().map(|record| record.event_id).collect();
    save(&mut repository, &[menu_changed(1)]);
    let after: Vec<Uuid> = repository.records.iter().map(|record| record.event_id).collect();
    assert_eq!(3, after.len());
    assert_eq!(before[..], after[..2]);
}

#[test]
fn a_chain_starts_behind_the_expected_version() {
    let mut repository = OrderAndRestaurantEventRepository::new();
    let saved =
        EventRepository::save(&mut repository, &[restaurant_created(1), menu_changed(1)], &None)
            .unwrap();
    assert_eq!(None, repository.records[0].previous_id);
    assert_eq!(Some(saved[0].1), repository.records[1].previous_id);
    assert_eq!(saved, EventRepository::fetch_events(&repository, &change_menu(1)).unwrap());

    let more = EventRepository::save(&mut repository, &[menu_changed(1)], &Some(saved[1].1)).unwrap();
    assert_eq!(Some(saved[1].1), repository.records[2].previous_id);
    assert_eq!(more[0].1, repository.records[2].event_id);
}

#[test]
fn a_chain_behind_a_stale_version_is_refused() {
    let mut repository = OrderAndRestaurantEventRepository::new();
    let saved = EventRepository::save(&mut repository, &[restaurant_created(1)], &None).unwrap();
    EventRepository::save(&mut repository, &[menu_changed(1)], &Some(saved[0].1)).unwrap();

    let refused = ErrorMessage {
        message: "Failed to save event: the stream has another version than expected".to_string(),
    };
    assert_eq!(refused, conflict());
    // Another writer was first: the version that this one read is stale.
    assert_eq!(
        Err(refused.clone()),
        EventRepository::save(&mut repository, &[menu_changed(1)], &Some(saved[0].1))
    );
    // A stream that has events has not the version of a new stream.
    assert_eq!(
        Err(refused.clone()),
        EventRepository::save(&mut repository, &[menu_changed(1)], &None)
    );
    // A new stream has no version.
    assert_eq!(
        Err(refused),
        EventRepository::save(&mut repository, &[order_created(2)], &Some(saved[0].1))
    );
    assert_eq!(2, repository.records.len());
    // No event, no conflict.
    assert_eq!(Ok(vec![]), EventRepository::save(&mut repository, &[], &Some(id(99))));
}

#[test]
fn the_regular_aggregate_records_behind_the_version_it_read() {
    let mut aggregate = EventSourcedAggregate::new(
        OrderAndRestaurantEventRepository::new(),
        order_restaurant_decider(),
    );
    let created = aggregate.handle(&create_restaurant(1)).unwrap();
    assert_eq!(vec![restaurant_created(1)], strip_versions(created.clone()));
    let changed = aggregate.handle(&change_menu(1)).unwrap();
    assert_eq!(vec![menu_changed(1)], strip_versions(changed.clone()));
    assert_eq!(None, aggregate.repository.records[0].previous_id);
    assert_eq!(Some(created[0].1), aggregate.repository.records[1].previous_id);
    assert_eq!(changed[0].1, aggregate.repository.records[1].event_id);

    assert_eq!(
        Err(AggregateError::Rejected(DomainError::RestaurantNotCreated(
            "Failed to create the Restaurant. Restaurant already exists!".to_string()
        ))),
        aggregate.handle(&create_restaurant(1))
    );
    assert_eq!(2, aggregate.repository.records.len());
    assert_eq!(
        Ok(vec![menu_changed(1)]),
        aggregate.compute_new_events(&[restaurant_created(1)], &change_menu(1))
    );
}

#[test]
fn the_log_can_be_read_and_written_without_a_store() {
    let mut records: Vec<EventRecord<Event>> = Vec::new();
    let first = append_events(&mut records, &[restaurant_created(1), order_created(2)]).unwrap();
    let second =
        append_events_in_chain(&mut records, &[menu_changed(1), menu_changed(1)], &Some(first[0].1))
            .unwrap();
    assert_eq!(4, records.len());
    assert_eq!(Some(first[0].1), records[2].previous_id);
    assert_eq!(Some(second[0].1), records[3].previous_id);
    assert_eq!(
        vec![first[0].clone(), second[0].clone(), second[1].clone()],
        fetch_stream(&records, &"Restaurant".to_string(), &id(1))
    );
    assert_eq!(Some(second[1].1), fetch_version(&records, &"Restaurant".to_string(), &id(1)));
    assert_eq!(Some(first[1].1), fetch_version(&records, &"Order".to_string(), &id(2)));
    assert_eq!(None, fetch_version(&records, &"Order".to_string(), &id(1)));
    assert_eq!(Vec::<(Event, Uuid)>::new(), fetch_stream(&records, &"Order".to_string(), &id(1)));
}

#[test]
fn a_final_event_closes_its_stream() {
    let mut repository = OrderAndRestaurantEventRepository::new();
    save(&mut repository, &[restaurant_created(1), order_created(2), order_prepared(2)]);
    assert!(is_closed(&repository.records, &"Order".to_string(), &id(2)));
    assert!(!is_closed(&repository.records, &"Restaurant".to_string(), &id(1)));
    assert!(!is_closed(&repository.records, &"Order".to_string(), &id(3)));
    assert!(!is_closed(&repository.records, &"Restaurant".to_string(), &id(2)));

    let refused = ErrorMessage { message: "Failed to save event: the stream is closed".to_string() };
    assert_eq!(refused, closed_stream());
    assert_eq!(
        Err(refused.clone()),
        EventOrchestratingRepository::save(&mut repository, &[order_created(2)])
    );
    // Nothing is added of events that hold one for a closed stream.
    assert_eq!(
        Err(refused.clone()),
        EventOrchestratingRepository::save(&mut repository, &[menu_changed(1), order_created(2)])
    );
    assert_eq!(3, repository.records.len());
    // Other streams are open.
    assert_eq!(2, save(&mut repository, &[menu_changed(1), order_created(3)]).len());
    assert_eq!(5, repository.records.len());
}

#[test]
fn a_final_event_closes_its_stream_for_the_events_behind_it() {
    let mut repository = OrderAndRestaurantEventRepository::new();
    let refused =
        Err(ErrorMessage { message: "Failed to save event: the stream is closed".to_string() });
    assert_eq!(
        refused,
        EventOrchestratingRepository::save(
            &mut repository,
            &[restaurant_created(1), order_created(2), order_prepared(2), order_created(2)]
        )
    );
    assert_eq!(0, repository.records.len());
    // The last event of a stream may be final.
    assert_eq!(2, save(&mut repository, &[order_created(2), order_prepared(2)]).len());
}

#[test]
fn a_chain_is_refused_by_a_closed_stream() {
    let mut repository = OrderAndRestaurantEventRepository::new();
    let saved =
        EventRepository::save(&mut repository, &[order_created(2), order_prepared(2)], &None)
            .unwrap();
    assert_eq!(
        Err(closed_stream()),
        EventRepository::save(&mut repository, &[order_created(2)], &Some(saved[1].1))
    );
    assert_eq!(2, repository.records.len());
    let mut records: Vec<EventRecord<Event>> = Vec::new();
    assert_eq!(None, append_events(&mut records, &[order_prepared(2), order_prepared(2)]));
    assert_eq!(
        None,
        append_events_in_chain(&mut records, &[order_prepared(2), order_prepared(2)], &None)
    );
    assert_eq!(0, records.len());
}

#[test]
fn versions_are_stripped_in_order() {
    assert_eq!(
        vec![menu_changed(1), order_created(2)],
        strip_versions(vec![(menu_changed(1), id(5)), (order_created(2), id(4))])
    );
    assert_eq!(Vec::<Event>::new(), strip_versions(Vec::<(Event, Uuid)>::new()));
}

#[test]
fn versions_are_told_apart() {
    assert!(same_version(&None, &None));
    assert!(same_version(&Some(id(7)), &Some(id(7))));
    assert!(!same_version(&Some(id(7)), &Some(id(8))));
    assert!(!same_version(&Some(id(7)), &None));
    assert!(!same_version(&None, &Some(id(7))));
}

#[test]
fn new_versions_are_random_identifiers() {
    let mut repository = OrderAndRestaurantEventRepository::new();
    let saved = save(&mut repository, &[restaurant_created(1), restaurant_created(1)]);
    assert_ne!(saved[0].1, saved[1].1);
    assert_eq!(4, saved[0].1.get_version_num());
    assert_eq!(4, saved[1].1.get_version_num());
    // A version is not the identifier of the stream.
    assert_ne!(id(1), saved[0].1);
}
