use fmodel_rust_postgres::domain::api::{
    CreateRestaurant, MarkOrderAsPrepared, MenuId, OrderId, PlaceOrder, RestaurantCreated,
    RestaurantEvent, RestaurantId, RestaurantMenu, RestaurantMenuCuisine, RestaurantName,
};
use fmodel_rust_postgres::domain::restaurant_view::{restaurant_view, RestaurantViewState};
use fmodel_rust_postgres::domain::{
    order_restaurant_decider, order_restaurant_saga, Command, Event,
};
use fmodel_rust_postgres::framework::application::event_sourced_aggregate::{
    AggregateError, EventSourcedAggregate, EventSourcedOrchestratingAggregate,
};
use fmodel_rust_postgres::framework::application::materialized_view::MaterializedView;
use fmodel_rust_postgres::framework::infrastructure::errors::ErrorMessage;
use fmodel_rust_postgres::framework::infrastructure::event_repository::{
    EventOrchestratingRepository, EventRepository,
};
use fmodel_rust_postgres::framework::infrastructure::view_state_repository::ViewStateRepository;
use uuid::Uuid;

fn failed(what: &str) -> ErrorMessage {
    ErrorMessage { message: what.to_string() }
}

fn menu() -> RestaurantMenu {
    RestaurantMenu {
        menu_id: MenuId(Uuid::from_u128(10)),
        items: vec![],
        cuisine: RestaurantMenuCuisine::Other,
    }
}

fn created() -> RestaurantCreated {
    RestaurantCreated {
        identifier: RestaurantId(Uuid::from_u128(1)),
        name: RestaurantName("Pljeska".to_string()),
        menu: menu(),
        is_final: false,
    }
}

fn create() -> Command {
    Command::CreateRestaurant(CreateRestaurant {
        identifier: RestaurantId(Uuid::from_u128(1)),
        name: RestaurantName("Pljeska".to_string()),
        menu: menu(),
    })
}

fn place() -> Command {
    Command::PlaceOrder(PlaceOrder {
        identifier: RestaurantId(Uuid::from_u128(1)),
        order_identifier: OrderId(Uuid::from_u128(2)),
        line_items: vec![],
    })
}

/// A store that is out of reach: every request fails.
struct Unreachable;

impl EventOrchestratingRepository<Command, Event> for Unreachable {
    fn fetch_events(&self, _command: &Command) -> Result<Vec<(Event, Uuid)>, ErrorMessage> {
        Err(failed("Failed to fetch events: no connection"))
    }

    fn fetch_latest_version(&self, _event: &Event) -> Result<Option<Uuid>, ErrorMessage> {
        Err(failed("Failed to fetch latest event / version: no connection"))
    }

    fn save(&mut self, _events: &[Event]) -> Result<Vec<(Event, Uuid)>, ErrorMessage> {
        Err(failed("Failed to save event: no connection"))
    }
}

impl EventRepository<Command, Event> for Unreachable {
    fn fetch_events(&self, _command: &Command) -> Result<Vec<(Event, Uuid)>, ErrorMessage> {
        Err(failed("Failed to fetch events: no connection"))
    }

    fn save(
        &mut self,
        _events: &[Event],
        _latest_version: &Option<Uuid>,
    ) -> Result<Vec<(Event, Uuid)>, ErrorMessage> {
        Err(failed("Failed to save event: no connection"))
    }
}

/// A store that can be read and not written. It holds one restaurant, and
/// gives out the history of an order only if it is allowed to.
struct ReadOnly {
    orders_can_be_read: bool,
}

impl EventOrchestratingRepository<Command, Event> for ReadOnly {
    fn fetch_events(&self, command: &Command) -> Result<Vec<(Event, Uuid)>, ErrorMessage> {
        match command {
            Command::CreateOrder(_) | Command::MarkOrderAsPrepared(_) => {
                if self.orders_can_be_read {
                    Ok(vec![])
                } else {
                    Err(failed("Failed to fetch events: orders cannot be read"))
                }
            }
            _ => Ok(vec![(Event::RestaurantCreated(created()), Uuid::from_u128(100))]),
        }
    }

    fn fetch_latest_version(&self, _event: &Event) -> Result<Option<Uuid>, ErrorMessage> {
        Ok(None)
    }

    fn save(&mut self, _events: &[Event]) -> Result<Vec<(Event, Uuid)>, ErrorMessage> {
        Err(failed("Failed to save event: the store cannot be written"))
    }
}

#[test]
fn a_store_that_fails_aborts_the_call() {
    let mut aggregate = EventSourcedOrchestratingAggregate::new(
        Unreachable,
        order_restaurant_decider(),
        order_restaurant_saga(),
    );
    let command = Command::MarkOrderAsPrepared(MarkOrderAsPrepared {
        identifier: OrderId(Uuid::parse_str("02f09a3f-1624-3b1d-8409-44eff7708210").unwrap()),
    });
    let out_of_reach =
        Err(AggregateError::Infrastructure(failed("Failed to fetch events: no connection")));
    assert_eq!(out_of_reach, aggregate.handle(&command));
    assert_eq!(out_of_reach, aggregate.handle_all(&[create(), command]));
    // A batch of nothing asks the store for nothing but to save nothing.
    assert_eq!(
        Err(AggregateError::Infrastructure(failed("Failed to save event: no connection"))),
        aggregate.handle_all(&[])
    );
}

#[test]
fn a_store_that_fails_aborts_the_call_of_the_regular_aggregate() {
    let mut aggregate = EventSourcedAggregate::new(Unreachable, order_restaurant_decider());
    assert_eq!(
        Err(AggregateError::Infrastructure(failed("Failed to fetch events: no connection"))),
        aggregate.handle(&create())
    );
}

#[test]
fn a_store_that_cannot_be_written_aborts_the_call_at_the_end() {
    let mut aggregate = EventSourcedOrchestratingAggregate::new(
        ReadOnly { orders_can_be_read: true },
        order_restaurant_decider(),
        order_restaurant_saga(),
    );
    // The events are computed; they cannot be recorded.
    let computed =
        aggregate.compute_new_events(&[Event::RestaurantCreated(created())], &place()).unwrap();
    assert_eq!(2, computed.len());
    assert_eq!(
        Err(AggregateError::Infrastructure(failed(
            "Failed to save event: the store cannot be written"
        ))),
        aggregate.handle(&place())
    );
    // A rejection comes before the store is asked to record anything.
    assert!(matches!(aggregate.handle(&create()), Err(AggregateError::Rejected(_))));
}

#[test]
fn a_store_that_fails_for_a_reaction_aborts_the_call() {
    let mut aggregate = EventSourcedOrchestratingAggregate::new(
        ReadOnly { orders_can_be_read: false },
        order_restaurant_decider(),
        order_restaurant_saga(),
    );
    let unreadable =
        AggregateError::Infrastructure(failed("Failed to fetch events: orders cannot be read"));
    assert_eq!(
        Err(AggregateError::Infrastructure(failed(
            "Failed to fetch events: orders cannot be read"
        ))),
        aggregate.compute_new_events(&[Event::RestaurantCreated(created())], &place())
    );
    assert_eq!(Err(unreadable), aggregate.handle(&place()));
}

/// A store of projected states that is out of reach.
struct NoStates;

impl ViewStateRepository<RestaurantEvent, Option<RestaurantViewState>> for NoStates {
    fn fetch_state(
        &self,
        _event: &RestaurantEvent,
    ) -> Result<Option<Option<RestaurantViewState>>, ErrorMessage> {
        Err(failed("Failed to fetch the restaurant: no connection"))
    }

    fn save(
        &mut self,
        _state: &Option<RestaurantViewState>,
    ) -> Result<Option<RestaurantViewState>, ErrorMessage> {
        Err(failed("Failed to save the restaurant: no connection"))
    }
}

#[test]
fn a_store_of_states_that_fails_aborts_the_projection() {
    let mut view = MaterializedView::new(NoStates, restaurant_view());
    assert_eq!(
        Err(failed("Failed to fetch the restaurant: no connection")),
        view.handle(&RestaurantEvent::Created(created()))
    );
}
