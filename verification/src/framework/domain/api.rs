use crate::model::{Faithful, Model};
use uuid::Uuid;
use vstd::prelude::*;

verus! {

/// A message, event or command that belongs to one stream: the entity
/// instance that it targets or reports on.
pub trait Identifier: Model {
    /// The stream identifier that a message with this model carries.
    spec fn identifier_of(message: Self::M) -> Uuid;

    /// The stream identifier that the message carries.
    fn identifier(&self) -> (id: Uuid)
        ensures
            id == Self::identifier_of(self.model()),
    ;
}

/// An event that knows the name of its variant.
pub trait EventType: Model {
    /// The name of the variant of an event with this model.
    spec fn event_type_of(event: Self::M) -> Seq<char>;

    /// The name of the event's variant.
    fn event_type(&self) -> (name: String)
        ensures
            name@ == Self::event_type_of(self.model()),
    ;
}

/// An event that knows whether it closes its stream.
pub trait IsFinal: Model {
    /// Whether an event with this model closes its stream.
    spec fn is_final_of(event: Self::M) -> bool;

    /// Whether the event closes its stream.
    fn is_final(&self) -> (closing: bool)
        ensures
            closing == Self::is_final_of(self.model()),
    ;
}

/// A message that knows the kind of entity it belongs to.
pub trait DeciderType: Model {
    /// The name of the kind of entity that a message with this model
    /// belongs to.
    spec fn decider_type_of(message: Self::M) -> Seq<char>;

    /// The name of the kind of entity that the message belongs to.
    fn decider_type(&self) -> (name: String)
        ensures
            name@ == Self::decider_type_of(self.model()),
    ;
}

/// Why a decider turned a command down. A rejected command yields no event.
#[derive(Debug, PartialEq, Eq)]
pub enum DomainError {
    RestaurantNotCreated(String),
    RestaurantMenuNotChanged(String),
    OrderNotPlaced(String),
    OrderNotCreated(String),
    OrderNotPrepared(String),
}

/// What a rejection stands for.
pub enum DomainErrorModel {
    RestaurantNotCreated(Seq<char>),
    RestaurantMenuNotChanged(Seq<char>),
    OrderNotPlaced(Seq<char>),
    OrderNotCreated(Seq<char>),
    OrderNotPrepared(Seq<char>),
}

impl DomainErrorModel {
    /// The reason that the error carries.
    pub open spec fn message(self) -> Seq<char> {
        match self {
            DomainErrorModel::RestaurantNotCreated(m) => m,
            DomainErrorModel::RestaurantMenuNotChanged(m) => m,
            DomainErrorModel::OrderNotPlaced(m) => m,
            DomainErrorModel::OrderNotCreated(m) => m,
            DomainErrorModel::OrderNotPrepared(m) => m,
        }
    }
}

impl Model for DomainError {
    type M = DomainErrorModel;

    open spec fn model(&self) -> DomainErrorModel {
        match self {
            DomainError::RestaurantNotCreated(m) => DomainErrorModel::RestaurantNotCreated(m@),
            DomainError::RestaurantMenuNotChanged(m) => DomainErrorModel::RestaurantMenuNotChanged(
                m@,
            ),
            DomainError::OrderNotPlaced(m) => DomainErrorModel::OrderNotPlaced(m@),
            DomainError::OrderNotCreated(m) => DomainErrorModel::OrderNotCreated(m@),
            DomainError::OrderNotPrepared(m) => DomainErrorModel::OrderNotPrepared(m@),
        }
    }
}

impl Clone for DomainError {
    fn clone(&self) -> (copy: Self)
        ensures
            copy.model() == self.model(),
    {
        match self {
            DomainError::RestaurantNotCreated(m) => DomainError::RestaurantNotCreated(m.clone()),
            DomainError::RestaurantMenuNotChanged(m) => DomainError::RestaurantMenuNotChanged(
                m.clone(),
            ),
            DomainError::OrderNotPlaced(m) => DomainError::OrderNotPlaced(m.clone()),
            DomainError::OrderNotCreated(m) => DomainError::OrderNotCreated(m.clone()),
            DomainError::OrderNotPrepared(m) => DomainError::OrderNotPrepared(m.clone()),
        }
    }
}

impl Faithful for DomainError {
    proof fn copy_has_model(source: Self, copy: Self) {
    }
}

impl DomainError {
    /// The reason that the error carries.
    pub fn message(&self) -> (text: String)
        ensures
            text@ == self.model().message(),
    {
        match self {
            DomainError::RestaurantNotCreated(m) => m.clone(),
            DomainError::RestaurantMenuNotChanged(m) => m.clone(),
            DomainError::OrderNotPlaced(m) => m.clone(),
            DomainError::OrderNotCreated(m) => m.clone(),
            DomainError::OrderNotPrepared(m) => m.clone(),
        }
    }
}

} // verus!
