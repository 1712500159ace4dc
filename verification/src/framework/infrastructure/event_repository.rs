use crate::framework::domain::api::{DeciderType, EventType, Identifier, IsFinal};
use crate::framework::infrastructure::errors::ErrorMessage;
use crate::model::{models, models_push, same_uuid, Faithful, Model};
use uuid::Uuid;
use vstd::prelude::*;

verus! {

/// One entry of the event log. Its place in the log is its offset: entries
/// are only ever added at the end, and none is changed or removed.
#[derive(Debug, PartialEq, Eq)]
pub struct EventRecord<E> {
    /// The name of the event's variant.
    pub event_type: String,
    /// The version that this entry gives its stream.
    pub event_id: Uuid,
    /// The kind of entity that the stream belongs to.
    pub decider_type: String,
    /// The entity that the stream belongs to.
    pub decider_id: Uuid,
    /// The event itself.
    pub data: E,
    /// The command that caused the event.
    pub command_id: Uuid,
    /// The version of the stream before this entry, if it had one.
    pub previous_id: Option<Uuid>,
    /// Whether the event closes its stream.
    pub is_final: bool,
}

/// What an entry of the event log stands for.
pub struct EventRecordModel<EM> {
    pub event_type: Seq<char>,
    pub event_id: Uuid,
    pub decider_type: Seq<char>,
    pub decider_id: Uuid,
    pub data: EM,
    pub command_id: Uuid,
    pub previous_id: Option<Uuid>,
    pub is_final: bool,
}

impl<E: Model> Model for EventRecord<E> {
    type M = EventRecordModel<E::M>;

    open spec fn model(&self) -> EventRecordModel<E::M> {
        EventRecordModel {
            event_type: self.event_type@,
            event_id: self.event_id,
            decider_type: self.decider_type@,
            decider_id: self.decider_id,
            data: self.data.model(),
            command_id: self.command_id,
            previous_id: self.previous_id,
            is_final: self.is_final,
        }
    }
}

/// Whether the entry belongs to the stream of the given kind and entity.
pub open spec fn in_stream<EM>(
    record: EventRecordModel<EM>,
    decider_type: Seq<char>,
    decider_id: Uuid,
) -> bool {
    record.decider_type == decider_type && record.decider_id == decider_id
}

/// The entries of one stream, oldest first.
pub open spec fn stream<EM>(
    log: Seq<EventRecordModel<EM>>,
    decider_type: Seq<char>,
    decider_id: Uuid,
) -> Seq<EventRecordModel<EM>>
    decreases log.len(),
{
    if log.len() == 0 {
        Seq::empty()
    } else {
        let before = stream(log.drop_last(), decider_type, decider_id);
        if in_stream(log.last(), decider_type, decider_id) {
            before.push(log.last())
        } else {
            before
        }
    }
}

/// The events of one stream, each with the version it gave the stream,
/// oldest first.
pub open spec fn history<EM>(
    log: Seq<EventRecordModel<EM>>,
    decider_type: Seq<char>,
    decider_id: Uuid,
) -> Seq<(EM, Uuid)> {
    let entries = stream(log, decider_type, decider_id);
    Seq::new(entries.len(), |i: int| (entries[i].data, entries[i].event_id))
}

/// The version of a stream: the version that its newest entry gave it, or
/// none for a stream without entries.
pub open spec fn latest_version<EM>(
    log: Seq<EventRecordModel<EM>>,
    decider_type: Seq<char>,
    decider_id: Uuid,
) -> Option<Uuid> {
    let entries = stream(log, decider_type, decider_id);
    if entries.len() == 0 {
        None
    } else {
        Some(entries.last().event_id)
    }
}

/// The events of a history, without their versions.
pub open spec fn events_of<EM>(versioned: Seq<(EM, Uuid)>) -> Seq<EM> {
    Seq::new(versioned.len(), |i: int| versioned[i].0)
}

/// The versions of a history, without their events.
pub open spec fn versions_of<EM>(versioned: Seq<(EM, Uuid)>) -> Seq<Uuid> {
    Seq::new(versioned.len(), |i: int| versioned[i].1)
}

/// The events that a stream holds, oldest first.
pub open spec fn stream_events<EM>(
    log: Seq<EventRecordModel<EM>>,
    decider_type: Seq<char>,
    decider_id: Uuid,
) -> Seq<EM> {
    events_of(history(log, decider_type, decider_id))
}

/// The events of the stream that a command targets, oldest first.
pub open spec fn target_events<C: Identifier + DeciderType, EM>(
    log: Seq<EventRecordModel<EM>>,
    command: C::M,
) -> Seq<EM> {
    stream_events(log, C::decider_type_of(command), C::identifier_of(command))
}

/// The version of the stream that a command targets.
pub open spec fn target_version<C: Identifier + DeciderType, EM>(
    log: Seq<EventRecordModel<EM>>,
    command: C::M,
) -> Option<Uuid> {
    latest_version(log, C::decider_type_of(command), C::identifier_of(command))
}

/// The entry that records an event under a version, behind a predecessor.
pub open spec fn record_of<E>(
    event: E::M,
    event_id: Uuid,
    previous_id: Option<Uuid>,
) -> EventRecordModel<E::M> where E: Identifier + EventType + IsFinal + DeciderType {
    EventRecordModel {
        event_type: E::event_type_of(event),
        event_id,
        decider_type: E::decider_type_of(event),
        decider_id: E::identifier_of(event),
        data: event,
        command_id: event_id,
        previous_id,
        is_final: E::is_final_of(event),
    }
}

/// The log after the events were added in order, each under its version and
/// behind the version that its own stream had at that moment.
pub open spec fn appended<E>(
    log: Seq<EventRecordModel<E::M>>,
    events: Seq<E::M>,
    versions: Seq<Uuid>,
) -> Seq<EventRecordModel<E::M>> where E: Identifier + EventType + IsFinal + DeciderType
    recommends
        events.len() == versions.len(),
    decreases events.len(),
{
    if events.len() == 0 {
        log
    } else {
        let before = appended::<E>(log, events.drop_last(), versions.drop_last());
        let event = events.last();
        before.push(
            record_of::<E>(
                event,
                versions.last(),
                latest_version(before, E::decider_type_of(event), E::identifier_of(event)),
            ),
        )
    }
}

/// The log after the events were added in order as one chain: the first
/// behind the version that the caller expects, each other behind the one
/// added just before it.
pub open spec fn appended_in_chain<E>(
    log: Seq<EventRecordModel<E::M>>,
    events: Seq<E::M>,
    versions: Seq<Uuid>,
    expected: Option<Uuid>,
) -> Seq<EventRecordModel<E::M>> where E: Identifier + EventType + IsFinal + DeciderType
    recommends
        events.len() == versions.len(),
    decreases events.len(),
{
    if events.len() == 0 {
        log
    } else {
        let before = appended_in_chain::<E>(
            log,
            events.drop_last(),
            versions.drop_last(),
            expected,
        );
        let previous = if events.len() == 1 {
            expected
        } else {
            Some(versions[events.len() - 2])
        };
        before.push(record_of::<E>(events.last(), versions.last(), previous))
    }
}

/// Whether the stream is closed: whether its newest entry is final. A closed
/// stream takes no further event.
pub open spec fn closed<EM>(
    log: Seq<EventRecordModel<EM>>,
    decider_type: Seq<char>,
    decider_id: Uuid,
) -> bool {
    let entries = stream(log, decider_type, decider_id);
    entries.len() > 0 && entries.last().is_final
}

/// Whether the stream is closed once the events are added to the log:
/// whether the last of them that belongs to the stream is final or, where
/// none belongs to it, the stream is closed in the log.
pub open spec fn closed_after<E>(
    log: Seq<EventRecordModel<E::M>>,
    events: Seq<E::M>,
    decider_type: Seq<char>,
    decider_id: Uuid,
) -> bool where E: Identifier + EventType + IsFinal + DeciderType
    decreases events.len(),
{
    if events.len() == 0 {
        closed(log, decider_type, decider_id)
    } else if E::decider_type_of(events.last()) == decider_type && E::identifier_of(
        events.last(),
    ) == decider_id {
        E::is_final_of(events.last())
    } else {
        closed_after::<E>(log, events.drop_last(), decider_type, decider_id)
    }
}

/// Whether the events cannot be added because one of them belongs to a
/// stream that is closed at its turn, in the log or by an event before it.
pub open spec fn blocked<E>(log: Seq<EventRecordModel<E::M>>, events: Seq<E::M>) -> bool where
    E: Identifier + EventType + IsFinal + DeciderType,

    decreases events.len(),
{
    if events.len() == 0 {
        false
    } else {
        blocked::<E>(log, events.drop_last()) || closed_after::<E>(
            log,
            events.drop_last(),
            E::decider_type_of(events.last()),
            E::identifier_of(events.last()),
        )
    }
}

/// Whether the events cannot be added behind the version that the caller
/// expects: whether the stream of the first of them has another version by
/// now.
pub open spec fn conflicts<E>(
    log: Seq<EventRecordModel<E::M>>,
    events: Seq<E::M>,
    expected: Option<Uuid>,
) -> bool where E: Identifier + EventType + IsFinal + DeciderType {
    events.len() > 0 && latest_version(
        log,
        E::decider_type_of(events[0]),
        E::identifier_of(events[0]),
    ) != expected
}

/// Whether two versions are the same.
pub fn same_version(left: &Option<Uuid>, right: &Option<Uuid>) -> (same: bool)
    ensures
        same == (*left == *right),
{
    match (left, right) {
        (Some(l), Some(r)) => same_uuid(l, r),
        (None, None) => true,
        _ => false,
    }
}

/// A version for an event that is about to be recorded: a random
/// identifier, made by `Uuid::new_v4`. Nothing is claimed of it: it comes
/// from the random source of the operating system, and the call fails where
/// that source does.
#[verifier::external_body]
fn new_version() -> Uuid {
    Uuid::new_v4()
}

/// Whether the entry belongs to the stream of the given kind and entity.
fn belongs_to<E: Model>(record: &EventRecord<E>, decider_type: &String, decider_id: &Uuid) -> (found:
    bool)
    ensures
        found == in_stream(record.model(), decider_type@, *decider_id),
{
    same_uuid(&record.decider_id, decider_id) && record.decider_type == *decider_type
}

/// Reads one stream from the log: its events with their versions, oldest
/// first.
pub fn fetch_stream<E: Faithful>(
    records: &Vec<EventRecord<E>>,
    decider_type: &String,
    decider_id: &Uuid,
) -> (found: Vec<(E, Uuid)>)
    ensures
        found.model() == history(records.model(), decider_type@, *decider_id),
{
    let mut found: Vec<(E, Uuid)> = Vec::new();
    let mut i: usize = 0;
    assert(found.model() =~= history(
        models(records@.take(0)),
        decider_type@,
        *decider_id,
    ));
    while i < records.len()
        invariant
            i <= records.len(),
            found.model() == history(
                models(records@.take(i as int)),
                decider_type@,
                *decider_id,
            ),
        decreases records.len() - i,
    {
        let ghost before = models(records@.take(i as int));
        let ghost upto = models(records@.take(i as int + 1));
        proof {
            assert(upto.drop_last() =~= before);
            assert(upto.last() == records@[i as int].model());
        }
        if belongs_to(&records[i], decider_type, decider_id) {
            let event = records[i].data.clone();
            proof {
                E::copy_has_model(records@[i as int].data, event);
            }
            let ghost old_found = found@;
            found.push((event, records[i].event_id));
            assert(found.model() =~= history(upto, decider_type@, *decider_id)) by {
                let entry = (event, records@[i as int].event_id);
                models_push(old_found, entry);
                assert(stream(upto, decider_type@, *decider_id) == stream(
                    before,
                    decider_type@,
                    *decider_id,
                ).push(upto.last()));
            }
        }
        i += 1;
    }
    proof {
        assert(records@.take(i as int) =~= records@);
    }
    found
}

/// Reads the version of one stream from the log.
pub fn fetch_version<E: Model>(
    records: &Vec<EventRecord<E>>,
    decider_type: &String,
    decider_id: &Uuid,
) -> (version: Option<Uuid>)
    ensures
        version == latest_version(records.model(), decider_type@, *decider_id),
{
    let mut version: Option<Uuid> = None;
    let mut i: usize = 0;
    while i < records.len()
        invariant
            i <= records.len(),
            version == latest_version(
                models(records@.take(i as int)),
                decider_type@,
                *decider_id,
            ),
        decreases records.len() - i,
    {
        proof {
            let upto = models(records@.take(i as int + 1));
            assert(upto.drop_last() =~= models(records@.take(i as int)));
            assert(upto.last() == records@[i as int].model());
        }
        if belongs_to(&records[i], decider_type, decider_id) {
            version = Some(records[i].event_id);
        }
        i += 1;
    }
    proof {
        assert(records@.take(i as int) =~= records@);
    }
    version
}

/// Reads from the log whether a stream is closed.
pub fn is_closed<E: Model>(
    records: &Vec<EventRecord<E>>,
    decider_type: &String,
    decider_id: &Uuid,
) -> (shut: bool)
    ensures
        shut == closed(records.model(), decider_type@, *decider_id),
{
    let mut shut = false;
    let mut i: usize = 0;
    while i < records.len()
        invariant
            i <= records.len(),
            shut == closed(models(records@.take(i as int)), decider_type@, *decider_id),
        decreases records.len() - i,
    {
        proof {
            let upto = models(records@.take(i as int + 1));
            assert(upto.drop_last() =~= models(records@.take(i as int)));
            assert(upto.last() == records@[i as int].model());
        }
        if belongs_to(&records[i], decider_type, decider_id) {
            shut = records[i].is_final;
        }
        i += 1;
    }
    proof {
        assert(records@.take(i as int) =~= records@);
    }
    shut
}

/// Whether a stream is closed after events were added is told by the events
/// and the log before, whatever versions the events were given.
pub proof fn closed_after_appending<E>(
    log: Seq<EventRecordModel<E::M>>,
    events: Seq<E::M>,
    versions: Seq<Uuid>,
    decider_type: Seq<char>,
    decider_id: Uuid,
) where E: Identifier + EventType + IsFinal + DeciderType
    requires
        events.len() == versions.len(),
    ensures
        closed(appended::<E>(log, events, versions), decider_type, decider_id) == closed_after::<
            E,
        >(log, events, decider_type, decider_id),
    decreases events.len(),
{
    if events.len() > 0 {
        closed_after_appending::<E>(
            log,
            events.drop_last(),
            versions.drop_last(),
            decider_type,
            decider_id,
        );
        let after = appended::<E>(log, events, versions);
        assert(after.drop_last() =~= appended::<E>(
            log,
            events.drop_last(),
            versions.drop_last(),
        ));
    }
}

/// As `closed_after_appending`, for events added as one chain.
pub proof fn closed_after_appending_in_chain<E>(
    log: Seq<EventRecordModel<E::M>>,
    events: Seq<E::M>,
    versions: Seq<Uuid>,
    expected: Option<Uuid>,
    decider_type: Seq<char>,
    decider_id: Uuid,
) where E: Identifier + EventType + IsFinal + DeciderType
    requires
        events.len() == versions.len(),
    ensures
        closed(
            appended_in_chain::<E>(log, events, versions, expected),
            decider_type,
            decider_id,
        ) == closed_after::<E>(log, events, decider_type, decider_id),
    decreases events.len(),
{
    if events.len() > 0 {
        closed_after_appending_in_chain::<E>(
            log,
            events.drop_last(),
            versions.drop_last(),
            expected,
            decider_type,
            decider_id,
        );
        let after = appended_in_chain::<E>(log, events, versions, expected);
        assert(after.drop_last() =~= appended_in_chain::<E>(
            log,
            events.drop_last(),
            versions.drop_last(),
            expected,
        ));
    }
}

/// Events that cannot be added up to some point cannot be added as a whole.
pub proof fn blocked_part_blocks_the_whole<E>(
    log: Seq<EventRecordModel<E::M>>,
    events: Seq<E::M>,
    k: int,
) where E: Identifier + EventType + IsFinal + DeciderType
    requires
        0 <= k <= events.len(),
        blocked::<E>(log, events.take(k)),
    ensures
        blocked::<E>(log, events),
    decreases events.len(),
{
    if k == events.len() {
        assert(events.take(k) =~= events);
    } else {
        assert(events.drop_last().take(k) =~= events.take(k));
        blocked_part_blocks_the_whole::<E>(log, events.drop_last(), k);
    }
}

/// Adds the events to the log in order, each under a new version and
/// behind the version that its own stream has at that moment. Returns the
/// events with their versions; or nothing, and adds nothing, where one of
/// the events belongs to a stream that is closed at its turn.
pub fn append_events<E>(records: &mut Vec<EventRecord<E>>, events: &[E]) -> (saved: Option<
    Vec<(E, Uuid)>,
>) where E: Faithful + Identifier + EventType + IsFinal + DeciderType
    ensures
        saved is None <==> blocked::<E>(old(records).model(), models(events@)),
        saved matches Some(stored) ==> events_of(stored.model()) == models(events@)
            && final(records).model() == appended::<E>(
            old(records).model(),
            models(events@),
            versions_of(stored.model()),
        ),
        saved is None ==> final(records)@ == old(records)@,
{
    let size = records.len();
    let mut saved: Vec<(E, Uuid)> = Vec::new();
    let mut i: usize = 0;
    proof {
        assert(events_of(saved.model()) =~= models(events@.take(0)));
        assert(records@.take(size as int) =~= old(records)@);
    }
    while i < events.len()
        invariant
            i <= events.len(),
            saved.len() == i,
            size == old(records).len(),
            records.len() >= size,
            records@.take(size as int) == old(records)@,
            events_of(saved.model()) == models(events@.take(i as int)),
            !blocked::<E>(old(records).model(), models(events@.take(i as int))),
            records.model() == appended::<E>(
                old(records).model(),
                models(events@.take(i as int)),
                versions_of(saved.model()),
            ),
        decreases events.len() - i,
    {
        let ghost saved_before = saved@;
        let ghost records_before = records@;
        let ghost upto = models(events@.take(i as int + 1));
        let event = &events[i];
        let decider_type = event.decider_type();
        let decider_id = event.identifier();
        proof {
            assert(upto.drop_last() =~= models(events@.take(i as int)));
            assert(upto.last() == event.model());
            closed_after_appending::<E>(
                old(records).model(),
                models(events@.take(i as int)),
                versions_of(saved.model()),
                decider_type@,
                decider_id,
            );
        }
        if is_closed(records, &decider_type, &decider_id) {
            proof {
                assert(models(events@).take(i as int + 1) =~= upto);
                blocked_part_blocks_the_whole::<E>(
                    old(records).model(),
                    models(events@),
                    i as int + 1,
                );
            }
            records.truncate(size);
            return None;
        }
        let previous_id = fetch_version(records, &decider_type, &decider_id);
        let event_id = new_version();
        let data = event.clone();
        let returned = event.clone();
        proof {
            E::copy_has_model(*event, data);
            E::copy_has_model(*event, returned);
        }
        let record = EventRecord {
            event_type: event.event_type(),
            event_id,
            decider_type,
            decider_id,
            data,
            command_id: event_id,
            previous_id,
            is_final: event.is_final(),
        };
        records.push(record);
        saved.push((returned, event_id));
        proof {
            let versions = versions_of(saved.model());
            models_push(saved_before, (returned, event_id));
            models_push(records_before, record);
            assert(records@.take(size as int) =~= records_before.take(size as int));
            assert(versions.drop_last() =~= versions_of(models(saved_before)));
            assert(versions.last() == event_id);
            assert(record.model() == record_of::<E>(event.model(), event_id, previous_id));
            assert(events_of(saved.model()) =~= upto) by {
                let earlier = events_of(models(saved_before));
                assert(earlier == upto.drop_last());
                assert forall|j: int| 0 <= j < i implies events_of(saved.model())[j]
                    == upto[j] by {
                    assert(earlier[j] == upto.drop_last()[j]);
                }
            }
        }
        i += 1;
    }
    proof {
        assert(events@.take(i as int) =~= events@);
    }
    Some(saved)
}

/// Adds the events to the log in order as one chain, each under a new
/// version: the first behind the version that the caller expects, each other
/// behind the one added just before it. Returns the events with their
/// versions; or nothing, and adds nothing, where one of the events belongs
/// to a stream that is closed at its turn.
pub fn append_events_in_chain<E>(
    records: &mut Vec<EventRecord<E>>,
    events: &[E],
    latest_version: &Option<Uuid>,
) -> (saved: Option<Vec<(E, Uuid)>>) where
    E: Faithful + Identifier + EventType + IsFinal + DeciderType,

    ensures
        saved is None <==> blocked::<E>(old(records).model(), models(events@)),
        saved matches Some(stored) ==> events_of(stored.model()) == models(events@)
            && final(records).model() == appended_in_chain::<E>(
            old(records).model(),
            models(events@),
            versions_of(stored.model()),
            *latest_version,
        ),
        saved is None ==> final(records)@ == old(records)@,
{
    let size = records.len();
    let mut saved: Vec<(E, Uuid)> = Vec::new();
    let mut version: Option<Uuid> = *latest_version;
    let mut i: usize = 0;
    proof {
        assert(events_of(saved.model()) =~= models(events@.take(0)));
        assert(records@.take(size as int) =~= old(records)@);
    }
    while i < events.len()
        invariant
            i <= events.len(),
            saved.len() == i,
            size == old(records).len(),
            records.len() >= size,
            records@.take(size as int) == old(records)@,
            events_of(saved.model()) == models(events@.take(i as int)),
            !blocked::<E>(old(records).model(), models(events@.take(i as int))),
            version == if i == 0 {
                *latest_version
            } else {
                Some(saved@[i - 1].1)
            },
            records.model() == appended_in_chain::<E>(
                old(records).model(),
                models(events@.take(i as int)),
                versions_of(saved.model()),
                *latest_version,
            ),
        decreases events.len() - i,
    {
        let ghost saved_before = saved@;
        let ghost records_before = records@;
        let ghost upto = models(events@.take(i as int + 1));
        let event = &events[i];
        let decider_type = event.decider_type();
        let decider_id = event.identifier();
        proof {
            assert(upto.drop_last() =~= models(events@.take(i as int)));
            assert(upto.last() == event.model());
            closed_after_appending_in_chain::<E>(
                old(records).model(),
                models(events@.take(i as int)),
                versions_of(saved.model()),
                *latest_version,
                decider_type@,
                decider_id,
            );
        }
        if is_closed(records, &decider_type, &decider_id) {
            proof {
                assert(models(events@).take(i as int + 1) =~= upto);
                blocked_part_blocks_the_whole::<E>(
                    old(records).model(),
                    models(events@),
                    i as int + 1,
                );
            }
            records.truncate(size);
            return None;
        }
        let event_id = new_version();
        let data = event.clone();
        let returned = event.clone();
        proof {
            E::copy_has_model(*event, data);
            E::copy_has_model(*event, returned);
        }
        let record = EventRecord {
            event_type: event.event_type(),
            event_id,
            decider_type,
            decider_id,
            data,
            command_id: event_id,
            previous_id: version,
            is_final: event.is_final(),
        };
        records.push(record);
        saved.push((returned, event_id));
        proof {
            let versions = versions_of(saved.model());
            models_push(saved_before, (returned, event_id));
            models_push(records_before, record);
            assert(records@.take(size as int) =~= records_before.take(size as int));
            assert(versions.drop_last() =~= versions_of(models(saved_before)));
            assert(versions.last() == event_id);
            assert(i > 0 ==> versions[i as int - 1] == saved_before[i as int - 1].1);
            assert(record.model() == record_of::<E>(event.model(), event_id, version));
            assert(events_of(saved.model()) =~= upto) by {
                let earlier = events_of(models(saved_before));
                assert(earlier == upto.drop_last());
                assert forall|j: int| 0 <= j < i implies events_of(saved.model())[j]
                    == upto[j] by {
                    assert(earlier[j] == upto.drop_last()[j]);
                }
            }
        }
        version = Some(event_id);
        i += 1;
    }
    proof {
        assert(events@.take(i as int) =~= events@);
    }
    Some(saved)
}

/// A store of events for deciders that work on one stream at a time. The
/// caller says which version it expects the stream to have, and the events
/// are chained behind that version.
pub trait EventRepository<C, E> where
    C: Identifier + DeciderType,
    E: Identifier + EventType + IsFinal + DeciderType,
 {
    /// The event log that the store holds. Of a store that does not say
    /// what it holds, nothing is known.
    open spec fn log(&self) -> Seq<EventRecordModel<E::M>> {
        arbitrary()
    }

    /// Whether the store answers every request. A store that does not say
    /// so may fail.
    open spec fn never_fails(&self) -> bool {
        false
    }

    /// The history of the stream that the command targets, oldest first.
    fn fetch_events(&self, command: &C) -> (fetched: Result<Vec<(E, Uuid)>, ErrorMessage>)
        ensures
            self.never_fails() ==> fetched is Ok,
            fetched matches Ok(found) ==> found.model() == history(
                self.log(),
                C::decider_type_of(command.model()),
                C::identifier_of(command.model()),
            ),
    ;

    /// Adds the events behind the expected version. It fails when the
    /// stream has another version by now: another writer was first. It
    /// fails when an event belongs to a stream that is closed. When it
    /// fails, nothing was added.
    fn save(&mut self, events: &[E], latest_version: &Option<Uuid>) -> (saved: Result<
        Vec<(E, Uuid)>,
        ErrorMessage,
    >)
        ensures
            final(self).never_fails() == old(self).never_fails(),
            conflicts::<E>(old(self).log(), models(events@), *latest_version) ==> saved is Err,
            blocked::<E>(old(self).log(), models(events@)) ==> saved is Err,
            old(self).never_fails() && !conflicts::<E>(
                old(self).log(),
                models(events@),
                *latest_version,
            ) && !blocked::<E>(old(self).log(), models(events@)) ==> saved is Ok,
            saved matches Ok(stored) ==> events_of(stored.model()) == models(events@)
                && final(self).log() == appended_in_chain::<E>(
                old(self).log(),
                models(events@),
                versions_of(stored.model()),
                *latest_version,
            ),
            saved is Err ==> final(self).log() == old(self).log(),
    ;
}

/// A store of events for an aggregate whose commands cause further commands
/// on other streams. It finds the version of each event's own stream itself,
/// at the moment it adds the event.
pub trait EventOrchestratingRepository<C, E> where
    C: Identifier + DeciderType,
    E: Identifier + EventType + IsFinal + DeciderType,
 {
    /// The event log that the store holds. Of a store that does not say
    /// what it holds, nothing is known.
    open spec fn log(&self) -> Seq<EventRecordModel<E::M>> {
        arbitrary()
    }

    /// Whether the store answers every request. A store that does not say
    /// so may fail.
    open spec fn never_fails(&self) -> bool {
        false
    }

    /// The history of the stream that the command targets, oldest first.
    fn fetch_events(&self, command: &C) -> (fetched: Result<Vec<(E, Uuid)>, ErrorMessage>)
        ensures
            self.never_fails() ==> fetched is Ok,
            fetched matches Ok(found) ==> found.model() == history(
                self.log(),
                C::decider_type_of(command.model()),
                C::identifier_of(command.model()),
            ),
    ;

    /// The version of the stream that the event belongs to.
    fn fetch_latest_version(&self, event: &E) -> (fetched: Result<Option<Uuid>, ErrorMessage>)
        ensures
            self.never_fails() ==> fetched is Ok,
            fetched matches Ok(version) ==> version == latest_version(
                self.log(),
                E::decider_type_of(event.model()),
                E::identifier_of(event.model()),
            ),
    ;

    /// Adds the events, each behind the version of its own stream. It fails
    /// when an event belongs to a stream that is closed. When it fails,
    /// nothing was added.
    fn save(&mut self, events: &[E]) -> (saved: Result<Vec<(E, Uuid)>, ErrorMessage>)
        ensures
            final(self).never_fails() == old(self).never_fails(),
            blocked::<E>(old(self).log(), models(events@)) ==> saved is Err,
            old(self).never_fails() && !blocked::<E>(old(self).log(), models(events@))
                ==> saved is Ok,
            saved matches Ok(stored) ==> events_of(stored.model()) == models(events@)
                && final(self).log() == appended::<E>(
                old(self).log(),
                models(events@),
                versions_of(stored.model()),
            ),
            saved is Err ==> final(self).log() == old(self).log(),
    ;
}

/// The log only grows: after events were added, every entry that was there
/// is there still, unchanged and in its place, and there is one new entry
/// for each event.
pub proof fn appending_keeps_the_log<E>(
    log: Seq<EventRecordModel<E::M>>,
    events: Seq<E::M>,
    versions: Seq<Uuid>,
) where E: Identifier + EventType + IsFinal + DeciderType
    requires
        events.len() == versions.len(),
    ensures
        appended::<E>(log, events, versions).len() == log.len() + events.len(),
        appended::<E>(log, events, versions).take(log.len() as int) == log,
        forall|i: int|
            0 <= i < events.len() ==> (#[trigger] appended::<E>(log, events, versions)[log.len()
                + i]).data == events[i] && appended::<E>(log, events, versions)[log.len()
                + i].event_id == versions[i],
    decreases events.len(),
{
    if events.len() == 0 {
        assert(log.take(log.len() as int) =~= log);
    } else {
        appending_keeps_the_log::<E>(log, events.drop_last(), versions.drop_last());
        let before = appended::<E>(log, events.drop_last(), versions.drop_last());
        let after = appended::<E>(log, events, versions);
        assert(after.take(log.len() as int) =~= before.take(log.len() as int));
        assert forall|i: int| 0 <= i < events.len() implies (#[trigger] after[log.len() + i]).data
            == events[i] && after[log.len() + i].event_id == versions[i] by {
            if i < events.len() - 1 {
                assert(after[log.len() + i] == before[log.len() + i]);
                assert(events.drop_last()[i] == events[i]);
                assert(versions.drop_last()[i] == versions[i]);
            }
        }
    }
}

/// An event that is added stands behind the version that its stream had,
/// and gives the stream its own version.
pub proof fn appended_event_moves_the_version<E>(
    log: Seq<EventRecordModel<E::M>>,
    event: E::M,
    version: Uuid,
) where E: Identifier + EventType + IsFinal + DeciderType
    ensures
        appended::<E>(log, seq![event], seq![version]).last().previous_id == latest_version(
            log,
            E::decider_type_of(event),
            E::identifier_of(event),
        ),
        latest_version(
            appended::<E>(log, seq![event], seq![version]),
            E::decider_type_of(event),
            E::identifier_of(event),
        ) == Some(version),
{
    let events = seq![event];
    let versions = seq![version];
    assert(events.drop_last().len() == 0);
    assert(appended::<E>(log, events.drop_last(), versions.drop_last()) == log);
    let after = appended::<E>(log, events, versions);
    assert(after.drop_last() =~= log);
    assert(in_stream(after.last(), E::decider_type_of(event), E::identifier_of(event)));
}

/// An event that is added joins the history of its own stream, at the end
/// and under its version, and leaves the history of every other stream as it
/// is.
pub proof fn appended_event_joins_its_stream<E>(
    log: Seq<EventRecordModel<E::M>>,
    event: E::M,
    version: Uuid,
    decider_type: Seq<char>,
    decider_id: Uuid,
) where E: Identifier + EventType + IsFinal + DeciderType
    ensures
        history(
            appended::<E>(log, seq![event], seq![version]),
            decider_type,
            decider_id,
        ) == if E::decider_type_of(event) == decider_type && E::identifier_of(event)
            == decider_id {
            history(log, decider_type, decider_id).push((event, version))
        } else {
            history(log, decider_type, decider_id)
        },
{
    let events = seq![event];
    let versions = seq![version];
    assert(events.drop_last().len() == 0);
    assert(appended::<E>(log, events.drop_last(), versions.drop_last()) == log);
    let after = appended::<E>(log, events, versions);
    assert(after.drop_last() =~= log);
    if E::decider_type_of(event) == decider_type && E::identifier_of(event) == decider_id {
        assert(in_stream(after.last(), decider_type, decider_id));
        assert(history(after, decider_type, decider_id) =~= history(
            log,
            decider_type,
            decider_id,
        ).push((event, version)));
    } else {
        assert(!in_stream(after.last(), decider_type, decider_id));
    }
}

} // verus!
