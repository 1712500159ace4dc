use crate::domain::api::{
    ChangeRestaurantMenu, ChangeRestaurantMenuModel, CreateOrder, CreateOrderModel,
    CreateRestaurant, CreateRestaurantModel, MarkOrderAsPrepared, OrderCommand, OrderCommandModel,
    OrderCreated, OrderCreatedModel, OrderEvent, OrderEventModel, OrderPlaced, OrderPlacedModel,
    OrderPrepared, PlaceOrder, PlaceOrderModel, RestaurantCommand, RestaurantCommandModel,
    RestaurantCreated, RestaurantCreatedModel, RestaurantEvent, RestaurantEventModel,
    RestaurantMenuChanged, RestaurantMenuChangedModel,
};
use crate::domain::order_decider::{
    order_decide, order_decider, order_evolve, Order, OrderDecider, OrderModel,
};
use crate::domain::order_saga::{order_saga, OrderSaga};
use crate::domain::restaurant_decider::{
    restaurant_decide, restaurant_decider, restaurant_evolve, Restaurant, RestaurantDecider,
    RestaurantModel,
};
use crate::domain::restaurant_saga::{restaurant_saga, RestaurantSaga};
use crate::framework::domain::api::{
    DeciderType, DomainError, DomainErrorModel, EventType, Identifier, IsFinal,
};
use crate::framework::domain::decider::{all_first, all_second, CombinedDecider, Decider};
use crate::framework::domain::saga::{
    actions_first, actions_second, Choreography, CombinedSaga, Saga,
};
use crate::model::{Faithful, Model};
use fmodel_rust::Sum;
use uuid::Uuid;
use vstd::prelude::*;

pub mod api;
pub mod order_decider;
pub mod order_saga;
pub mod order_view;
pub mod restaurant_decider;
pub mod restaurant_saga;
pub mod restaurant_view;

verus! {

/// Every command of the two domains, restaurants and orders.
#[derive(Debug, PartialEq, Eq)]
pub enum Command {
    CreateRestaurant(CreateRestaurant),
    ChangeRestaurantMenu(ChangeRestaurantMenu),
    PlaceOrder(PlaceOrder),
    CreateOrder(CreateOrder),
    MarkOrderAsPrepared(MarkOrderAsPrepared),
}

/// What a command stands for.
pub enum CommandModel {
    CreateRestaurant(CreateRestaurantModel),
    ChangeRestaurantMenu(ChangeRestaurantMenuModel),
    PlaceOrder(PlaceOrderModel),
    CreateOrder(CreateOrderModel),
    MarkOrderAsPrepared(MarkOrderAsPrepared),
}

impl Model for Command {
    type M = CommandModel;

    open spec fn model(&self) -> CommandModel {
        match self {
            Command::CreateRestaurant(x) => CommandModel::CreateRestaurant(x.model()),
            Command::ChangeRestaurantMenu(x) => CommandModel::ChangeRestaurantMenu(x.model()),
            Command::PlaceOrder(x) => CommandModel::PlaceOrder(x.model()),
            Command::CreateOrder(x) => CommandModel::CreateOrder(x.model()),
            Command::MarkOrderAsPrepared(x) => CommandModel::MarkOrderAsPrepared(*x),
        }
    }
}

impl Clone for Command {
    fn clone(&self) -> (copy: Self)
        ensures
            copy.model() == self.model(),
    {
        match self {
            Command::CreateRestaurant(x) => Command::CreateRestaurant(x.clone()),
            Command::ChangeRestaurantMenu(x) => Command::ChangeRestaurantMenu(x.clone()),
            Command::PlaceOrder(x) => Command::PlaceOrder(x.clone()),
            Command::CreateOrder(x) => Command::CreateOrder(x.clone()),
            Command::MarkOrderAsPrepared(x) => Command::MarkOrderAsPrepared(*x),
        }
    }
}

impl Faithful for Command {
    proof fn copy_has_model(source: Self, copy: Self) {
    }
}

/// Every event of the two domains, restaurants and orders.
#[derive(Debug, PartialEq, Eq)]
pub enum Event {
    RestaurantCreated(RestaurantCreated),
    RestaurantMenuChanged(RestaurantMenuChanged),
    OrderPlaced(OrderPlaced),
    OrderCreated(OrderCreated),
    OrderPrepared(OrderPrepared),
}

/// What an event stands for.
pub enum EventModel {
    RestaurantCreated(RestaurantCreatedModel),
    RestaurantMenuChanged(RestaurantMenuChangedModel),
    OrderPlaced(OrderPlacedModel),
    OrderCreated(OrderCreatedModel),
    OrderPrepared(OrderPrepared),
}

impl Model for Event {
    type M = EventModel;

    open spec fn model(&self) -> EventModel {
        match self {
            Event::RestaurantCreated(x) => EventModel::RestaurantCreated(x.model()),
            Event::RestaurantMenuChanged(x) => EventModel::RestaurantMenuChanged(x.model()),
            Event::OrderPlaced(x) => EventModel::OrderPlaced(x.model()),
            Event::OrderCreated(x) => EventModel::OrderCreated(x.model()),
            Event::OrderPrepared(x) => EventModel::OrderPrepared(*x),
        }
    }
}

impl Clone for Event {
    fn clone(&self) -> (copy: Self)
        ensures
            copy.model() == self.model(),
    {
        match self {
            Event::RestaurantCreated(x) => Event::RestaurantCreated(x.clone()),
            Event::RestaurantMenuChanged(x) => Event::RestaurantMenuChanged(x.clone()),
            Event::OrderPlaced(x) => Event::OrderPlaced(x.clone()),
            Event::OrderCreated(x) => Event::OrderCreated(x.clone()),
            Event::OrderPrepared(x) => Event::OrderPrepared(*x),
        }
    }
}

impl Faithful for Event {
    proof fn copy_has_model(source: Self, copy: Self) {
    }
}

/// The name of the restaurant kind of entity.
pub open spec fn restaurant_kind() -> Seq<char> {
    "Restaurant"@
}

/// The name of the order kind of entity.
pub open spec fn order_kind() -> Seq<char> {
    "Order"@
}

impl CommandModel {
    /// Whether the command targets a restaurant; else it targets an order.
    pub open spec fn targets_restaurant(self) -> bool {
        self is CreateRestaurant || self is ChangeRestaurantMenu || self is PlaceOrder
    }

    /// The stream that the command targets.
    pub open spec fn identifier(self) -> Uuid {
        match self {
            CommandModel::CreateRestaurant(c) => c.identifier.0,
            CommandModel::ChangeRestaurantMenu(c) => c.identifier.0,
            CommandModel::PlaceOrder(c) => c.identifier.0,
            CommandModel::CreateOrder(c) => c.identifier.0,
            CommandModel::MarkOrderAsPrepared(c) => c.identifier.0,
        }
    }
}

impl EventModel {
    /// Whether the event is a fact about a restaurant; else it is one about
    /// an order.
    pub open spec fn of_restaurant(self) -> bool {
        self is RestaurantCreated || self is RestaurantMenuChanged || self is OrderPlaced
    }

    /// The stream that the event belongs to.
    pub open spec fn identifier(self) -> Uuid {
        match self {
            EventModel::RestaurantCreated(e) => e.identifier.0,
            EventModel::RestaurantMenuChanged(e) => e.identifier.0,
            EventModel::OrderPlaced(e) => e.identifier.0,
            EventModel::OrderCreated(e) => e.identifier.0,
            EventModel::OrderPrepared(e) => e.identifier.0,
        }
    }

    /// The name of the event's variant.
    pub open spec fn event_type(self) -> Seq<char> {
        match self {
            EventModel::RestaurantCreated(_) => "RestaurantCreated"@,
            EventModel::RestaurantMenuChanged(_) => "RestaurantMenuChanged"@,
            EventModel::OrderPlaced(_) => "OrderPlaced"@,
            EventModel::OrderCreated(_) => "OrderCreated"@,
            EventModel::OrderPrepared(_) => "OrderPrepared"@,
        }
    }

    /// Whether the event closes its stream.
    pub open spec fn is_final(self) -> bool {
        match self {
            EventModel::RestaurantCreated(e) => e.is_final,
            EventModel::RestaurantMenuChanged(e) => e.is_final,
            EventModel::OrderPlaced(e) => e.is_final,
            EventModel::OrderCreated(e) => e.is_final,
            EventModel::OrderPrepared(e) => e.is_final,
        }
    }
}

impl Identifier for Command {
    open spec fn identifier_of(message: CommandModel) -> Uuid {
        message.identifier()
    }

    fn identifier(&self) -> (id: Uuid) {
        match self {
            Command::CreateRestaurant(cmd) => cmd.identifier.0,
            Command::ChangeRestaurantMenu(cmd) => cmd.identifier.0,
            Command::PlaceOrder(cmd) => cmd.identifier.0,
            Command::CreateOrder(cmd) => cmd.identifier.0,
            Command::MarkOrderAsPrepared(cmd) => cmd.identifier.0,
        }
    }
}

impl DeciderType for Command {
    open spec fn decider_type_of(message: CommandModel) -> Seq<char> {
        if message.targets_restaurant() {
            restaurant_kind()
        } else {
            order_kind()
        }
    }

    fn decider_type(&self) -> (name: String) {
        match self {
            Command::CreateRestaurant(_) => "Restaurant".to_owned(),
            Command::ChangeRestaurantMenu(_) => "Restaurant".to_owned(),
            Command::PlaceOrder(_) => "Restaurant".to_owned(),
            Command::CreateOrder(_) => "Order".to_owned(),
            Command::MarkOrderAsPrepared(_) => "Order".to_owned(),
        }
    }
}

impl Identifier for Event {
    open spec fn identifier_of(message: EventModel) -> Uuid {
        message.identifier()
    }

    fn identifier(&self) -> (id: Uuid) {
        match self {
            Event::RestaurantCreated(evt) => evt.identifier.0,
            Event::RestaurantMenuChanged(evt) => evt.identifier.0,
            Event::OrderPlaced(evt) => evt.identifier.0,
            Event::OrderCreated(evt) => evt.identifier.0,
            Event::OrderPrepared(evt) => evt.identifier.0,
        }
    }
}

impl EventType for Event {
    open spec fn event_type_of(event: EventModel) -> Seq<char> {
        event.event_type()
    }

    fn event_type(&self) -> (name: String) {
        match self {
            Event::RestaurantCreated(_) => "RestaurantCreated".to_owned(),
            Event::RestaurantMenuChanged(_) => "RestaurantMenuChanged".to_owned(),
            Event::OrderPlaced(_) => "OrderPlaced".to_owned(),
            Event::OrderCreated(_) => "OrderCreated".to_owned(),
            Event::OrderPrepared(_) => "OrderPrepared".to_owned(),
        }
    }
}

impl IsFinal for Event {
    open spec fn is_final_of(event: EventModel) -> bool {
        event.is_final()
    }

    fn is_final(&self) -> (closing: bool) {
        match self {
            Event::RestaurantCreated(evt) => evt.is_final,
            Event::RestaurantMenuChanged(evt) => evt.is_final,
            Event::OrderPlaced(evt) => evt.is_final,
            Event::OrderCreated(evt) => evt.is_final,
            Event::OrderPrepared(evt) => evt.is_final,
        }
    }
}

impl DeciderType for Event {
    open spec fn decider_type_of(message: EventModel) -> Seq<char> {
        if message.of_restaurant() {
            restaurant_kind()
        } else {
            order_kind()
        }
    }

    fn decider_type(&self) -> (name: String) {
        match self {
            Event::RestaurantCreated(_) => "Restaurant".to_owned(),
            Event::RestaurantMenuChanged(_) => "Restaurant".to_owned(),
            Event::OrderPlaced(_) => "Restaurant".to_owned(),
            Event::OrderCreated(_) => "Order".to_owned(),
            Event::OrderPrepared(_) => "Order".to_owned(),
        }
    }
}

// Routing between the one command and event type that callers see and the
// choice of sides that the combined decider and saga work on.

/// The side that a command belongs to: restaurants first, orders second.
pub open spec fn command_to_sum_model(command: CommandModel) -> Sum<
    RestaurantCommandModel,
    OrderCommandModel,
> {
    match command {
        CommandModel::CreateRestaurant(c) => Sum::First(
            RestaurantCommandModel::CreateRestaurant(c),
        ),
        CommandModel::ChangeRestaurantMenu(c) => Sum::First(RestaurantCommandModel::ChangeMenu(c)),
        CommandModel::PlaceOrder(c) => Sum::First(RestaurantCommandModel::PlaceOrder(c)),
        CommandModel::CreateOrder(c) => Sum::Second(OrderCommandModel::Create(c)),
        CommandModel::MarkOrderAsPrepared(c) => Sum::Second(OrderCommandModel::MarkAsPrepared(c)),
    }
}

/// The side that an event belongs to: restaurants first, orders second.
pub open spec fn event_to_sum_model(event: EventModel) -> Sum<
    RestaurantEventModel,
    OrderEventModel,
> {
    match event {
        EventModel::RestaurantCreated(e) => Sum::First(RestaurantEventModel::Created(e)),
        EventModel::RestaurantMenuChanged(e) => Sum::First(RestaurantEventModel::MenuChanged(e)),
        EventModel::OrderPlaced(e) => Sum::First(RestaurantEventModel::OrderPlaced(e)),
        EventModel::OrderCreated(e) => Sum::Second(OrderEventModel::Created(e)),
        EventModel::OrderPrepared(e) => Sum::Second(OrderEventModel::Prepared(e)),
    }
}

/// The side that an event belongs to: orders first, restaurants second.
pub open spec fn event_to_sum2_model(event: EventModel) -> Sum<
    OrderEventModel,
    RestaurantEventModel,
> {
    match event {
        EventModel::RestaurantCreated(e) => Sum::Second(RestaurantEventModel::Created(e)),
        EventModel::RestaurantMenuChanged(e) => Sum::Second(RestaurantEventModel::MenuChanged(e)),
        EventModel::OrderPlaced(e) => Sum::Second(RestaurantEventModel::OrderPlaced(e)),
        EventModel::OrderCreated(e) => Sum::First(OrderEventModel::Created(e)),
        EventModel::OrderPrepared(e) => Sum::First(OrderEventModel::Prepared(e)),
    }
}

/// The command that a command of either side is: orders first, restaurants
/// second.
pub open spec fn sum_to_command_model(
    command: Sum<OrderCommandModel, RestaurantCommandModel>,
) -> CommandModel {
    match command {
        Sum::Second(c) => match c {
            RestaurantCommandModel::CreateRestaurant(c) => CommandModel::CreateRestaurant(c),
            RestaurantCommandModel::ChangeMenu(c) => CommandModel::ChangeRestaurantMenu(c),
            RestaurantCommandModel::PlaceOrder(c) => CommandModel::PlaceOrder(c),
        },
        Sum::First(c) => match c {
            OrderCommandModel::Create(c) => CommandModel::CreateOrder(c),
            OrderCommandModel::MarkAsPrepared(c) => CommandModel::MarkOrderAsPrepared(c),
        },
    }
}

/// The event that an event of either side is: restaurants first, orders
/// second.
pub open spec fn sum_to_event_model(event: Sum<RestaurantEventModel, OrderEventModel>) -> EventModel {
    match event {
        Sum::First(e) => match e {
            RestaurantEventModel::Created(e) => EventModel::RestaurantCreated(e),
            RestaurantEventModel::MenuChanged(e) => EventModel::RestaurantMenuChanged(e),
            RestaurantEventModel::OrderPlaced(e) => EventModel::OrderPlaced(e),
        },
        Sum::Second(e) => match e {
            OrderEventModel::Created(e) => EventModel::OrderCreated(e),
            OrderEventModel::Prepared(e) => EventModel::OrderPrepared(e),
        },
    }
}

/// The restaurant event that an event is, if it is one.
pub open spec fn event_to_restaurant_event_model(event: EventModel) -> Option<
    RestaurantEventModel,
> {
    match event {
        EventModel::RestaurantCreated(e) => Some(RestaurantEventModel::Created(e)),
        EventModel::RestaurantMenuChanged(e) => Some(RestaurantEventModel::MenuChanged(e)),
        EventModel::OrderPlaced(e) => Some(RestaurantEventModel::OrderPlaced(e)),
        EventModel::OrderCreated(_) => None,
        EventModel::OrderPrepared(_) => None,
    }
}

/// Routes a command to its side: restaurants first, orders second.
pub fn command_to_sum(command: &Command) -> (routed: Sum<RestaurantCommand, OrderCommand>)
    ensures
        routed.model() == command_to_sum_model(command.model()),
{
    match command {
        Command::CreateRestaurant(c) => Sum::First(RestaurantCommand::CreateRestaurant(c.clone())),
        Command::ChangeRestaurantMenu(c) => Sum::First(RestaurantCommand::ChangeMenu(c.clone())),
        Command::PlaceOrder(c) => Sum::First(RestaurantCommand::PlaceOrder(c.clone())),
        Command::CreateOrder(c) => Sum::Second(OrderCommand::Create(c.clone())),
        Command::MarkOrderAsPrepared(c) => Sum::Second(OrderCommand::MarkAsPrepared(*c)),
    }
}

/// Routes an event to its side: restaurants first, orders second.
pub fn event_to_sum(event: &Event) -> (routed: Sum<RestaurantEvent, OrderEvent>)
    ensures
        routed.model() == event_to_sum_model(event.model()),
{
    match event {
        Event::RestaurantCreated(e) => Sum::First(RestaurantEvent::Created(e.clone())),
        Event::RestaurantMenuChanged(e) => Sum::First(RestaurantEvent::MenuChanged(e.clone())),
        Event::OrderPlaced(e) => Sum::First(RestaurantEvent::OrderPlaced(e.clone())),
        Event::OrderCreated(e) => Sum::Second(OrderEvent::Created(e.clone())),
        Event::OrderPrepared(e) => Sum::Second(OrderEvent::Prepared(*e)),
    }
}

/// Routes an event to its side: orders first, restaurants second.
pub fn event_to_sum2(event: &Event) -> (routed: Sum<OrderEvent, RestaurantEvent>)
    ensures
        routed.model() == event_to_sum2_model(event.model()),
{
    match event {
        Event::RestaurantCreated(e) => Sum::Second(RestaurantEvent::Created(e.clone())),
        Event::RestaurantMenuChanged(e) => Sum::Second(RestaurantEvent::MenuChanged(e.clone())),
        Event::OrderPlaced(e) => Sum::Second(RestaurantEvent::OrderPlaced(e.clone())),
        Event::OrderCreated(e) => Sum::First(OrderEvent::Created(e.clone())),
        Event::OrderPrepared(e) => Sum::First(OrderEvent::Prepared(*e)),
    }
}

/// Turns a command of either side into a command.
pub fn sum_to_command(command: &Sum<OrderCommand, RestaurantCommand>) -> (merged: Command)
    ensures
        merged.model() == sum_to_command_model(command.model()),
{
    match command {
        Sum::Second(c) => match c {
            RestaurantCommand::CreateRestaurant(c) => Command::CreateRestaurant(c.clone()),
            RestaurantCommand::ChangeMenu(c) => Command::ChangeRestaurantMenu(c.clone()),
            RestaurantCommand::PlaceOrder(c) => Command::PlaceOrder(c.clone()),
        },
        Sum::First(c) => match c {
            OrderCommand::Create(c) => Command::CreateOrder(c.clone()),
            OrderCommand::MarkAsPrepared(c) => Command::MarkOrderAsPrepared(*c),
        },
    }
}

/// Turns an event of either side into an event.
pub fn sum_to_event(event: &Sum<RestaurantEvent, OrderEvent>) -> (merged: Event)
    ensures
        merged.model() == sum_to_event_model(event.model()),
{
    match event {
        Sum::First(e) => match e {
            RestaurantEvent::Created(e) => Event::RestaurantCreated(e.clone()),
            RestaurantEvent::MenuChanged(e) => Event::RestaurantMenuChanged(e.clone()),
            RestaurantEvent::OrderPlaced(e) => Event::OrderPlaced(e.clone()),
        },
        Sum::Second(e) => match e {
            OrderEvent::Created(e) => Event::OrderCreated(e.clone()),
            OrderEvent::Prepared(e) => Event::OrderPrepared(*e),
        },
    }
}

/// The restaurant event that an event is, or nothing for an event of an
/// order.
pub fn event_to_restaurant_event(event: &Event) -> (found: Option<RestaurantEvent>)
    ensures
        found.model() == event_to_restaurant_event_model(event.model()),
{
    match event {
        Event::RestaurantCreated(e) => Some(RestaurantEvent::Created(e.clone())),
        Event::RestaurantMenuChanged(e) => Some(RestaurantEvent::MenuChanged(e.clone())),
        Event::OrderPlaced(e) => Some(RestaurantEvent::OrderPlaced(e.clone())),
        Event::OrderCreated(_e) => None,
        Event::OrderPrepared(_e) => None,
    }
}

/// Each event of either side as an event, in the same order.
pub open spec fn sums_to_events(events: Seq<Sum<RestaurantEventModel, OrderEventModel>>) -> Seq<
    EventModel,
> {
    Seq::new(events.len(), |i: int| sum_to_event_model(events[i]))
}

/// Each command of either side as a command, in the same order.
pub open spec fn sums_to_commands(
    commands: Seq<Sum<OrderCommandModel, RestaurantCommandModel>>,
) -> Seq<CommandModel> {
    Seq::new(commands.len(), |i: int| sum_to_command_model(commands[i]))
}

/// What restaurants and orders together decide on a command: what the side
/// that the command belongs to decides on its own state.
pub open spec fn order_restaurant_decide(
    command: CommandModel,
    state: (Option<RestaurantModel>, Option<OrderModel>),
) -> Result<Seq<EventModel>, DomainErrorModel> {
    match command_to_sum_model(command) {
        Sum::First(c) => match restaurant_decide(c, state.0) {
            Ok(events) => Ok(sums_to_events(all_first(events))),
            Err(e) => Err(e),
        },
        Sum::Second(c) => match order_decide(c, state.1) {
            Ok(events) => Ok(sums_to_events(all_second(events))),
            Err(e) => Err(e),
        },
    }
}

/// What an event makes of the state of restaurants and orders together: it
/// changes the state of its side and leaves the other as it is.
pub open spec fn order_restaurant_evolve(
    state: (Option<RestaurantModel>, Option<OrderModel>),
    event: EventModel,
) -> (Option<RestaurantModel>, Option<OrderModel>) {
    match event_to_sum_model(event) {
        Sum::First(e) => (restaurant_evolve(state.0, e), state.1),
        Sum::Second(e) => (state.0, order_evolve(state.1, e)),
    }
}

/// The decider of restaurants and orders together. A command goes to the
/// side it belongs to and is decided on that side's state alone; an event
/// changes that side's state alone.
pub struct OrderAndRestaurantDecider {
    pub sides: CombinedDecider<RestaurantDecider, OrderDecider>,
}

impl Decider for OrderAndRestaurantDecider {
    type Command = Command;

    type State = (Option<Restaurant>, Option<Order>);

    type Event = Event;

    type Error = DomainError;

    open spec fn initial_state_model(&self) -> (Option<RestaurantModel>, Option<OrderModel>) {
        (None, None)
    }

    open spec fn decide_model(
        &self,
        command: CommandModel,
        state: (Option<RestaurantModel>, Option<OrderModel>),
    ) -> Result<Seq<EventModel>, DomainErrorModel> {
        order_restaurant_decide(command, state)
    }

    open spec fn evolve_model(
        &self,
        state: (Option<RestaurantModel>, Option<OrderModel>),
        event: EventModel,
    ) -> (Option<RestaurantModel>, Option<OrderModel>) {
        order_restaurant_evolve(state, event)
    }

    fn initial_state(&self) -> (state: (Option<Restaurant>, Option<Order>)) {
        self.sides.initial_state()
    }

    fn decide(&self, command: &Command, state: &(Option<Restaurant>, Option<Order>)) -> (decision:
        Result<Vec<Event>, DomainError>) {
        let routed = command_to_sum(command);
        match self.sides.decide(&routed, state) {
            Ok(decided) => {
                let mut events: Vec<Event> = Vec::new();
                let mut i: usize = 0;
                while i < decided.len()
                    invariant
                        i <= decided.len(),
                        events.len() == i,
                        forall|j: int|
                            0 <= j < i ==> events[j].model() == sum_to_event_model(
                                #[trigger] decided[j].model(),
                            ),
                    decreases decided.len() - i,
                {
                    events.push(sum_to_event(&decided[i]));
                    i += 1;
                }
                assert(events.model() =~= sums_to_events(decided.model()));
                Ok(events)
            },
            Err(e) => Err(e),
        }
    }

    fn evolve(&self, state: &(Option<Restaurant>, Option<Order>), event: &Event) -> (next: (
        Option<Restaurant>,
        Option<Order>,
    )) {
        let routed = event_to_sum(event);
        self.sides.evolve(state, &routed)
    }
}

/// The decider of restaurants and orders together.
pub fn order_restaurant_decider() -> (decider: OrderAndRestaurantDecider)
    ensures
        decider == (OrderAndRestaurantDecider {
            sides: CombinedDecider { first: RestaurantDecider, second: OrderDecider },
        }),
{
    OrderAndRestaurantDecider {
        sides: crate::framework::domain::decider::combine(restaurant_decider(), order_decider()),
    }
}

/// The choreography of restaurants and orders together. An event goes to
/// the saga that reacts to its side, and to that saga alone.
pub struct OrderAndRestaurantSaga {
    pub sides: CombinedSaga<RestaurantSaga, OrderSaga>,
}

impl Saga for OrderAndRestaurantSaga {
    type ActionResult = Event;

    type Action = Command;

    open spec fn react_model(&self, result: EventModel) -> Seq<CommandModel> {
        sums_to_commands(self.sides.react_model(event_to_sum2_model(result)))
    }

    fn react(&self, result: &Event) -> (actions: Vec<Command>) {
        let routed = event_to_sum2(result);
        let found = self.sides.react(&routed);
        let mut actions: Vec<Command> = Vec::new();
        let mut i: usize = 0;
        while i < found.len()
            invariant
                i <= found.len(),
                actions.len() == i,
                forall|j: int|
                    0 <= j < i ==> actions[j].model() == sum_to_command_model(
                        #[trigger] found[j].model(),
                    ),
            decreases found.len() - i,
        {
            actions.push(sum_to_command(&found[i]));
            i += 1;
        }
        assert(actions.model() =~= sums_to_commands(found.model()));
        actions
    }
}

/// The choreography of restaurants and orders together.
pub fn order_restaurant_saga() -> (saga: OrderAndRestaurantSaga)
    ensures
        saga == (OrderAndRestaurantSaga {
            sides: CombinedSaga { first: RestaurantSaga, second: OrderSaga },
        }),
{
    OrderAndRestaurantSaga {
        sides: crate::framework::domain::saga::combine(restaurant_saga(), order_saga()),
    }
}

/// How deep the cascade of reactions is that a command can start. An order
/// placed at a restaurant causes the order to be created, and nothing
/// follows from that; nothing follows from any other command.
pub open spec fn cascade_depth(command: CommandModel) -> nat {
    if command is PlaceOrder {
        1
    } else {
        0
    }
}

impl Choreography<OrderAndRestaurantDecider> for OrderAndRestaurantSaga {
    open spec fn rank(&self, command: CommandModel) -> nat {
        cascade_depth(command)
    }

    proof fn reactions_rank_lower(
        &self,
        decider: OrderAndRestaurantDecider,
        command: CommandModel,
        state: (Option<RestaurantModel>, Option<OrderModel>),
        i: int,
        j: int,
    ) {
    }
}

/// The decider of restaurants and orders decides as the two deciders
/// combined do: the command is routed to its side, that side decides, and
/// the events of that side come back as events.
pub proof fn decides_as_the_sides_combined(
    decider: OrderAndRestaurantDecider,
    command: CommandModel,
    state: (Option<RestaurantModel>, Option<OrderModel>),
)
    ensures
        decider.decide_model(command, state) == match decider.sides.decide_model(
            command_to_sum_model(command),
            state,
        ) {
            Ok(events) => Ok(sums_to_events(events)),
            Err(reason) => Err(reason),
        },
        decider.initial_state_model() == decider.sides.initial_state_model(),
{
}

/// An event changes the state of restaurants and orders as it changes the
/// state of the two deciders combined, once it is routed to its side.
pub proof fn evolves_as_the_sides_combined(
    decider: OrderAndRestaurantDecider,
    state: (Option<RestaurantModel>, Option<OrderModel>),
    event: EventModel,
)
    ensures
        decider.evolve_model(state, event) == decider.sides.evolve_model(
            state,
            event_to_sum_model(event),
        ),
{
}

/// An event of a restaurant leaves the state of the order as it is, and an
/// event of an order leaves the state of the restaurant as it is.
pub proof fn event_keeps_the_other_state(
    state: (Option<RestaurantModel>, Option<OrderModel>),
    event: EventModel,
)
    ensures
        event.of_restaurant() ==> order_restaurant_evolve(state, event).1 == state.1,
        !event.of_restaurant() ==> order_restaurant_evolve(state, event).0 == state.0,
{
}

/// A command is decided on the state of its own side: whatever the state of
/// the other side is, the decision is the same, and the events decided are
/// events of the command's side.
pub proof fn command_ignores_the_other_state(
    command: CommandModel,
    state: (Option<RestaurantModel>, Option<OrderModel>),
    other: (Option<RestaurantModel>, Option<OrderModel>),
)
    requires
        command.targets_restaurant() ==> other.0 == state.0,
        !command.targets_restaurant() ==> other.1 == state.1,
    ensures
        order_restaurant_decide(command, other) == order_restaurant_decide(command, state),
        order_restaurant_decide(command, state) matches Ok(events) ==> forall|i: int|
            0 <= i < events.len() ==> events[i].of_restaurant() == command.targets_restaurant(),
{
}

/// An event of a restaurant reaches the saga of orders and no other, and an
/// event of an order reaches the saga of restaurants and no other. So the
/// one reaction there is follows the placing of an order: the command to
/// create that order.
pub proof fn event_reaches_one_saga(saga: OrderAndRestaurantSaga, event: EventModel)
    ensures
        saga.react_model(event) == match event_to_sum2_model(event) {
            Sum::First(of_order) => sums_to_commands(
                actions_second(saga.sides.first.react_model(of_order)),
            ),
            Sum::Second(of_restaurant) => sums_to_commands(
                actions_first(saga.sides.second.react_model(of_restaurant)),
            ),
        },
        event matches EventModel::OrderPlaced(placed) ==> saga.react_model(event) =~= seq![
            CommandModel::CreateOrder(
                CreateOrderModel {
                    identifier: placed.order_identifier,
                    restaurant_identifier: placed.identifier,
                    line_items: placed.line_items,
                },
            ),
        ],
        !(event is OrderPlaced) ==> saga.react_model(event) =~= Seq::<CommandModel>::empty(),
{
}

} // verus!
