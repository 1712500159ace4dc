use crate::domain::{Command, Event, EventModel};
use crate::framework::domain::api::{DeciderType, Identifier};
use crate::framework::infrastructure::errors::ErrorMessage;
use crate::framework::infrastructure::event_repository::{
    append_events, append_events_in_chain, fetch_stream, fetch_version, same_version,
    EventOrchestratingRepository, EventRecord, EventRecordModel, EventRepository,
};
use crate::model::Model;
use uuid::Uuid;
use vstd::prelude::*;

verus! {

/// The event log of restaurants and orders. It holds the entries in the
/// order in which they were added.
pub struct OrderAndRestaurantEventRepository {
    pub records: Vec<EventRecord<Event>>,
}

impl OrderAndRestaurantEventRepository {
    /// An event log without entries.
    pub fn new() -> (repository: Self)
        ensures
            repository.records@ == Seq::<EventRecord<Event>>::empty(),
    {
        OrderAndRestaurantEventRepository { records: Vec::new() }
    }
}

/// Said when events are to be added behind a version that is not the
/// version of their stream.
pub open spec fn stream_has_moved_on() -> Seq<char> {
    "Failed to save event: the stream has another version than expected"@
}

/// What the store reports when events are to be added behind a version
/// that is not the version of their stream.
pub fn conflict() -> (error: ErrorMessage)
    ensures
        error.model() == stream_has_moved_on(),
{
    ErrorMessage {
        message: "Failed to save event: the stream has another version than expected".to_owned(),
    }
}

/// Said when an event is to be added to a stream that is closed.
pub open spec fn stream_is_closed() -> Seq<char> {
    "Failed to save event: the stream is closed"@
}

/// What the store reports when an event is to be added to a stream that is
/// closed.
pub fn closed_stream() -> (error: ErrorMessage)
    ensures
        error.model() == stream_is_closed(),
{
    ErrorMessage { message: "Failed to save event: the stream is closed".to_owned() }
}

impl EventOrchestratingRepository<Command, Event> for OrderAndRestaurantEventRepository {
    open spec fn log(&self) -> Seq<EventRecordModel<EventModel>> {
        self.records.model()
    }

    open spec fn never_fails(&self) -> bool {
        true
    }

    fn fetch_events(&self, command: &Command) -> (fetched: Result<
        Vec<(Event, Uuid)>,
        ErrorMessage,
    >) {
        let decider_type = command.decider_type();
        let decider_id = command.identifier();
        Ok(fetch_stream(&self.records, &decider_type, &decider_id))
    }

    fn fetch_latest_version(&self, event: &Event) -> (fetched: Result<Option<Uuid>, ErrorMessage>) {
        let decider_type = event.decider_type();
        let decider_id = event.identifier();
        Ok(fetch_version(&self.records, &decider_type, &decider_id))
    }

    fn save(&mut self, events: &[Event]) -> (saved: Result<Vec<(Event, Uuid)>, ErrorMessage>) {
        match append_events(&mut self.records, events) {
            Some(saved) => Ok(saved),
            None => Err(closed_stream()),
        }
    }
}

impl EventRepository<Command, Event> for OrderAndRestaurantEventRepository {
    open spec fn log(&self) -> Seq<EventRecordModel<EventModel>> {
        self.records.model()
    }

    open spec fn never_fails(&self) -> bool {
        true
    }

    fn fetch_events(&self, command: &Command) -> (fetched: Result<
        Vec<(Event, Uuid)>,
        ErrorMessage,
    >) {
        let decider_type = command.decider_type();
        let decider_id = command.identifier();
        Ok(fetch_stream(&self.records, &decider_type, &decider_id))
    }

    fn save(&mut self, events: &[Event], latest_version: &Option<Uuid>) -> (saved: Result<
        Vec<(Event, Uuid)>,
        ErrorMessage,
    >) {
        if events.len() > 0 {
            let first = &events[0];
            let decider_type = first.decider_type();
            let decider_id = first.identifier();
            let current = fetch_version(&self.records, &decider_type, &decider_id);
            if !same_version(&current, latest_version) {
                return Err(conflict());
            }
        }
        match append_events_in_chain(&mut self.records, events, latest_version) {
            Some(saved) => Ok(saved),
            None => Err(closed_stream()),
        }
    }
}

} // verus!
