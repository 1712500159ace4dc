use crate::domain::api::{
    CreateRestaurantModel,
    OrderPlaced, OrderPlacedModel, RestaurantCommand, RestaurantCommandModel, RestaurantCreated,
    RestaurantCreatedModel, RestaurantEvent, RestaurantEventModel, RestaurantId, RestaurantMenu,
    RestaurantMenuChanged, RestaurantMenuChangedModel, RestaurantMenuModel, RestaurantName,
};
use crate::framework::domain::api::{DomainError, DomainErrorModel};
use crate::framework::domain::decider::{fold_events, state_of, Decider};
use crate::model::{clone_vec, Faithful, Model};
use vstd::prelude::*;

verus! {

/// The state of a restaurant: what its events have made of it.
#[derive(Debug, PartialEq, Eq)]
pub struct Restaurant {
    pub identifier: RestaurantId,
    pub name: RestaurantName,
    pub menu: RestaurantMenu,
}

/// What the state of a restaurant stands for.
pub struct RestaurantModel {
    pub identifier: RestaurantId,
    pub name: Seq<char>,
    pub menu: RestaurantMenuModel,
}

impl Model for Restaurant {
    type M = RestaurantModel;

    open spec fn model(&self) -> RestaurantModel {
        RestaurantModel {
            identifier: self.identifier,
            name: self.name.model(),
            menu: self.menu.model(),
        }
    }
}

impl Clone for Restaurant {
    fn clone(&self) -> (copy: Self)
        ensures
            copy.model() == self.model(),
    {
        Restaurant {
            identifier: self.identifier,
            name: self.name.clone(),
            menu: self.menu.clone(),
        }
    }
}

impl Faithful for Restaurant {
    proof fn copy_has_model(source: Self, copy: Self) {
    }
}

/// Said when a restaurant that exists is to be created again.
pub open spec fn restaurant_already_exists() -> Seq<char> {
    "Failed to create the Restaurant. Restaurant already exists!"@
}

/// Said when the menu of a restaurant that does not exist is to be changed.
pub open spec fn menu_without_restaurant() -> Seq<char> {
    "Failed to change the menu. Restaurant does not exist!"@
}

/// Said when an order is to be placed at a restaurant that does not exist.
pub open spec fn order_without_restaurant() -> Seq<char> {
    "Failed to place the order. Restaurant does not exist!"@
}

/// The decider of restaurants. A command that does not fit the state is
/// rejected with an error and yields no event.
#[derive(Clone, Copy, Debug)]
pub struct RestaurantDecider;

/// What a restaurant decides on a command.
pub open spec fn restaurant_decide(
    command: RestaurantCommandModel,
    state: Option<RestaurantModel>,
) -> Result<Seq<RestaurantEventModel>, DomainErrorModel> {
    match command {
        RestaurantCommandModel::CreateRestaurant(c) => if state is Some {
            Err(DomainErrorModel::RestaurantNotCreated(restaurant_already_exists()))
        } else {
            Ok(
                seq![
                    RestaurantEventModel::Created(
                        RestaurantCreatedModel {
                            identifier: c.identifier,
                            name: c.name,
                            menu: c.menu,
                            is_final: false,
                        },
                    ),
                ],
            )
        },
        RestaurantCommandModel::ChangeMenu(c) => if state is Some {
            Ok(
                seq![
                    RestaurantEventModel::MenuChanged(
                        RestaurantMenuChangedModel {
                            identifier: c.identifier,
                            menu: c.menu,
                            is_final: false,
                        },
                    ),
                ],
            )
        } else {
            Err(DomainErrorModel::RestaurantMenuNotChanged(menu_without_restaurant()))
        },
        RestaurantCommandModel::PlaceOrder(c) => if state is Some {
            Ok(
                seq![
                    RestaurantEventModel::OrderPlaced(
                        OrderPlacedModel {
                            identifier: c.identifier,
                            order_identifier: c.order_identifier,
                            line_items: c.line_items,
                            is_final: false,
                        },
                    ),
                ],
            )
        } else {
            Err(DomainErrorModel::OrderNotPlaced(order_without_restaurant()))
        },
    }
}

/// What an event makes of a restaurant.
pub open spec fn restaurant_evolve(
    state: Option<RestaurantModel>,
    event: RestaurantEventModel,
) -> Option<RestaurantModel> {
    match event {
        RestaurantEventModel::Created(e) => Some(
            RestaurantModel { identifier: e.identifier, name: e.name, menu: e.menu },
        ),
        RestaurantEventModel::MenuChanged(e) => match state {
            Some(s) => Some(
                RestaurantModel { identifier: e.identifier, name: s.name, menu: e.menu },
            ),
            None => None,
        },
        RestaurantEventModel::OrderPlaced(e) => match state {
            Some(s) => Some(
                RestaurantModel { identifier: e.identifier, name: s.name, menu: s.menu },
            ),
            None => None,
        },
    }
}

impl Decider for RestaurantDecider {
    type Command = RestaurantCommand;

    type State = Option<Restaurant>;

    type Event = RestaurantEvent;

    type Error = DomainError;

    open spec fn initial_state_model(&self) -> Option<RestaurantModel> {
        None
    }

    open spec fn decide_model(
        &self,
        command: RestaurantCommandModel,
        state: Option<RestaurantModel>,
    ) -> Result<Seq<RestaurantEventModel>, DomainErrorModel> {
        restaurant_decide(command, state)
    }

    open spec fn evolve_model(
        &self,
        state: Option<RestaurantModel>,
        event: RestaurantEventModel,
    ) -> Option<RestaurantModel> {
        restaurant_evolve(state, event)
    }

    fn initial_state(&self) -> (state: Option<Restaurant>) {
        None
    }

    fn decide(&self, command: &RestaurantCommand, state: &Option<Restaurant>) -> (decision: Result<
        Vec<RestaurantEvent>,
        DomainError,
    >) {
        match command {
            RestaurantCommand::CreateRestaurant(command) => {
                if state.is_some() {
                    let error = DomainError::RestaurantNotCreated(
                        "Failed to create the Restaurant. Restaurant already exists!".to_owned(),
                    );
                    assert(error.model() == DomainErrorModel::RestaurantNotCreated(
                        restaurant_already_exists(),
                    ));
                    Err(error)
                } else {
                    let events = vec![
                        RestaurantEvent::Created(
                            RestaurantCreated {
                                identifier: command.identifier,
                                name: command.name.clone(),
                                menu: command.menu.clone(),
                                is_final: false,
                            },
                        ),
                    ];
                    proof {
                        assert(events.model() =~= restaurant_decide(
                            RestaurantCommandModel::CreateRestaurant(command.model()),
                            state.model(),
                        )->Ok_0);
                    }
                    Ok(events)
                }
            },
            RestaurantCommand::ChangeMenu(command) => {
                if state.is_some() {
                    let events = vec![
                        RestaurantEvent::MenuChanged(
                            RestaurantMenuChanged {
                                identifier: command.identifier,
                                menu: command.menu.clone(),
                                is_final: false,
                            },
                        ),
                    ];
                    proof {
                        assert(events.model() =~= restaurant_decide(
                            RestaurantCommandModel::ChangeMenu(command.model()),
                            state.model(),
                        )->Ok_0);
                    }
                    Ok(events)
                } else {
                    let error = DomainError::RestaurantMenuNotChanged(
                        "Failed to change the menu. Restaurant does not exist!".to_owned(),
                    );
                    assert(error.model() == DomainErrorModel::RestaurantMenuNotChanged(
                        menu_without_restaurant(),
                    ));
                    Err(error)
                }
            },
            RestaurantCommand::PlaceOrder(command) => {
                if state.is_some() {
                    let events = vec![
                        RestaurantEvent::OrderPlaced(
                            OrderPlaced {
                                identifier: command.identifier,
                                order_identifier: command.order_identifier,
                                line_items: clone_vec(&command.line_items),
                                is_final: false,
                            },
                        ),
                    ];
                    proof {
                        assert(events.model() =~= restaurant_decide(
                            RestaurantCommandModel::PlaceOrder(command.model()),
                            state.model(),
                        )->Ok_0);
                    }
                    Ok(events)
                } else {
                    let error = DomainError::OrderNotPlaced(
                        "Failed to place the order. Restaurant does not exist!".to_owned(),
                    );
                    assert(error.model() == DomainErrorModel::OrderNotPlaced(
                        order_without_restaurant(),
                    ));
                    Err(error)
                }
            },
        }
    }

    fn evolve(&self, state: &Option<Restaurant>, event: &RestaurantEvent) -> (next: Option<
        Restaurant,
    >) {
        match event {
            RestaurantEvent::Created(event) => Some(
                Restaurant {
                    identifier: event.identifier,
                    name: event.name.clone(),
                    menu: event.menu.clone(),
                },
            ),
            RestaurantEvent::MenuChanged(event) => match state {
                Some(s) => Some(
                    Restaurant {
                        identifier: event.identifier,
                        name: s.name.clone(),
                        menu: event.menu.clone(),
                    },
                ),
                None => None,
            },
            RestaurantEvent::OrderPlaced(event) => match state {
                Some(s) => Some(
                    Restaurant {
                        identifier: event.identifier,
                        name: s.name.clone(),
                        menu: s.menu.clone(),
                    },
                ),
                None => None,
            },
        }
    }
}

/// The decider of restaurants.
pub fn restaurant_decider() -> (decider: RestaurantDecider)
    ensures
        decider == RestaurantDecider,
{
    RestaurantDecider
}

/// The command to create a restaurant, sent to a restaurant that does not
/// exist yet, yields the one event that the restaurant was created, with the
/// identifier, name and menu of the command. After that event the restaurant
/// exists.
pub proof fn creating_a_new_restaurant_creates_it(command: CreateRestaurantModel)
    ensures
        restaurant_decide(RestaurantCommandModel::CreateRestaurant(command), None) == Ok::<
            Seq<RestaurantEventModel>,
            DomainErrorModel,
        >(
            seq![
                RestaurantEventModel::Created(
                    RestaurantCreatedModel {
                        identifier: command.identifier,
                        name: command.name,
                        menu: command.menu,
                        is_final: false,
                    },
                ),
            ],
        ),
        state_of(
            RestaurantDecider,
            restaurant_decide(RestaurantCommandModel::CreateRestaurant(command), None)->Ok_0,
        ) == Some(
            RestaurantModel {
                identifier: command.identifier,
                name: command.name,
                menu: command.menu,
            },
        ),
{
    let created = restaurant_decide(RestaurantCommandModel::CreateRestaurant(command), None)->Ok_0;
    assert(created.drop_last() =~= Seq::empty());
    assert(fold_events(RestaurantDecider, None, created.drop_last()) == None::<RestaurantModel>);
}

/// The command to create a restaurant, sent to a restaurant that a history
/// has brought into existence, is rejected: it yields no event, and so never
/// a second event of creation.
pub proof fn creating_a_restaurant_again_is_rejected(
    history: Seq<RestaurantEventModel>,
    command: CreateRestaurantModel,
)
    requires
        state_of(RestaurantDecider, history) is Some,
    ensures
        restaurant_decide(
            RestaurantCommandModel::CreateRestaurant(command),
            state_of(RestaurantDecider, history),
        ) == Err::<Seq<RestaurantEventModel>, DomainErrorModel>(
            DomainErrorModel::RestaurantNotCreated(restaurant_already_exists()),
        ),
{
}

/// The state of a restaurant depends on the order of its events: two events
/// of creation that differ lead to different states when their order is
/// turned round.
pub proof fn replay_depends_on_order(first: RestaurantCreatedModel, second: RestaurantCreatedModel)
    requires
        first.identifier != second.identifier || first.name != second.name || first.menu
            != second.menu,
    ensures
        state_of(
            RestaurantDecider,
            seq![RestaurantEventModel::Created(first), RestaurantEventModel::Created(second)],
        ) != state_of(
            RestaurantDecider,
            seq![RestaurantEventModel::Created(second), RestaurantEventModel::Created(first)],
        ),
{
    let forth = seq![RestaurantEventModel::Created(first), RestaurantEventModel::Created(second)];
    let back = seq![RestaurantEventModel::Created(second), RestaurantEventModel::Created(first)];
    assert(forth.last() == RestaurantEventModel::Created(second));
    assert(back.last() == RestaurantEventModel::Created(first));
}

} // verus!
