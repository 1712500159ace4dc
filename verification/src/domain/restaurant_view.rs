use crate::domain::api::{
    RestaurantEvent, RestaurantEventModel, RestaurantId, RestaurantMenu, RestaurantMenuModel,
    RestaurantName,
};
use crate::framework::domain::api::Identifier;
use crate::framework::domain::projection::Projection;
use crate::model::{Faithful, Model};
use uuid::Uuid;
use vstd::prelude::*;

verus! {

/// The projected state of a restaurant, as the read side shows it.
#[derive(Debug, PartialEq, Eq)]
pub struct RestaurantViewState {
    pub identifier: RestaurantId,
    pub name: RestaurantName,
    pub menu: RestaurantMenu,
}

/// What the projected state of a restaurant stands for.
pub struct RestaurantViewStateModel {
    pub identifier: RestaurantId,
    pub name: Seq<char>,
    pub menu: RestaurantMenuModel,
}

impl Model for RestaurantViewState {
    type M = RestaurantViewStateModel;

    open spec fn model(&self) -> RestaurantViewStateModel {
        RestaurantViewStateModel {
            identifier: self.identifier,
            name: self.name.model(),
            menu: self.menu.model(),
        }
    }
}

impl Clone for RestaurantViewState {
    fn clone(&self) -> (copy: Self)
        ensures
            copy.model() == self.model(),
    {
        RestaurantViewState {
            identifier: self.identifier,
            name: self.name.clone(),
            menu: self.menu.clone(),
        }
    }
}

impl Faithful for RestaurantViewState {
    proof fn copy_has_model(source: Self, copy: Self) {
    }
}

impl Identifier for RestaurantViewState {
    open spec fn identifier_of(message: RestaurantViewStateModel) -> Uuid {
        message.identifier.0
    }

    fn identifier(&self) -> (id: Uuid) {
        self.identifier.0
    }
}

/// The read side of restaurants.
#[derive(Clone, Copy, Debug)]
pub struct RestaurantView;

/// What an event makes of the projected state of a restaurant. A restaurant
/// that was never created stays absent.
pub open spec fn restaurant_view_evolve(
    state: Option<RestaurantViewStateModel>,
    event: RestaurantEventModel,
) -> Option<RestaurantViewStateModel> {
    match event {
        RestaurantEventModel::Created(e) => Some(
            RestaurantViewStateModel { identifier: e.identifier, name: e.name, menu: e.menu },
        ),
        RestaurantEventModel::MenuChanged(e) => match state {
            Some(s) => Some(
                RestaurantViewStateModel { identifier: e.identifier, name: s.name, menu: e.menu },
            ),
            None => None,
        },
        RestaurantEventModel::OrderPlaced(e) => match state {
            Some(s) => Some(
                RestaurantViewStateModel { identifier: e.identifier, name: s.name, menu: s.menu },
            ),
            None => None,
        },
    }
}

impl Projection for RestaurantView {
    type State = Option<RestaurantViewState>;

    type Event = RestaurantEvent;

    open spec fn initial_state_model(&self) -> Option<RestaurantViewStateModel> {
        None
    }

    open spec fn evolve_model(
        &self,
        state: Option<RestaurantViewStateModel>,
        event: RestaurantEventModel,
    ) -> Option<RestaurantViewStateModel> {
        restaurant_view_evolve(state, event)
    }

    fn initial_state(&self) -> (state: Option<RestaurantViewState>) {
        None
    }

    fn evolve(&self, state: &Option<RestaurantViewState>, event: &RestaurantEvent) -> (next: Option<
        RestaurantViewState,
    >) {
        match event {
            RestaurantEvent::Created(event) => Some(
                RestaurantViewState {
                    identifier: event.identifier,
                    name: event.name.clone(),
                    menu: event.menu.clone(),
                },
            ),
            RestaurantEvent::MenuChanged(event) => match state {
                Some(s) => Some(
                    RestaurantViewState {
                        identifier: event.identifier,
                        name: s.name.clone(),
                        menu: event.menu.clone(),
                    },
                ),
                None => None,
            },
            RestaurantEvent::OrderPlaced(event) => match state {
                Some(s) => Some(
                    RestaurantViewState {
                        identifier: event.identifier,
                        name: s.name.clone(),
                        menu: s.menu.clone(),
                    },
                ),
                None => None,
            },
        }
    }
}

/// The read side of restaurants.
pub fn restaurant_view() -> (view: RestaurantView)
    ensures
        view == RestaurantView,
{
    RestaurantView
}

/// Applying one event twice leaves the projected state of a restaurant as
/// applying it once does.
pub proof fn restaurant_view_is_idempotent(
    state: Option<RestaurantViewStateModel>,
    event: RestaurantEventModel,
)
    ensures
        restaurant_view_evolve(restaurant_view_evolve(state, event), event)
            == restaurant_view_evolve(state, event),
{
}

} // verus!
