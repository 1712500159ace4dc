use crate::framework::domain::api::{DeciderType, EventType, Identifier, IsFinal};
use crate::framework::domain::decider::{
    compute_new_events, decision_on, state_of, CommandOf, Decider, ErrorOf, EventOf,
};
use crate::framework::domain::saga::{react_to_all, reaction_source, reactions, Choreography};
use crate::framework::infrastructure::errors::ErrorMessage;
use crate::framework::infrastructure::event_repository::{
    appended, appended_in_chain, blocked, conflicts, events_of, target_events, target_version,
    versions_of, EventOrchestratingRepository, EventRecordModel, EventRepository,
};
use crate::model::{clone_vec, models, models_add, Faithful, Model};
use uuid::Uuid;
use vstd::prelude::*;

verus! {

/// Why a command was not handled.
#[derive(Debug, PartialEq, Eq)]
pub enum AggregateError<R> {
    /// The decider turned the command down, or a command that followed from
    /// it. No event was recorded.
    Rejected(R),
    /// The store failed, or refused the events. No event was recorded.
    Infrastructure(ErrorMessage),
}

/// The events of a history, without their versions.
pub fn strip_versions<E: Model>(versioned: Vec<(E, Uuid)>) -> (events: Vec<E>)
    ensures
        events.model() == events_of(versioned.model()),
{
    let mut events: Vec<E> = Vec::new();
    for pair in iter: versioned
        invariant
            events.len() == iter.index(),
            forall|j: int| 0 <= j < events.len() ==> events[j] == iter.seq()[j].0,
    {
        events.push(pair.0);
    }
    assert(events.model() =~= events_of(versioned.model()));
    events
}

// ###################################################################
// ###################### Regular Aggregate ##########################
// ###################################################################

/// An aggregate that works on one stream at a time: it reads the stream that
/// a command targets, lets the decider decide, and adds the new events
/// behind the version it read.
pub struct EventSourcedAggregate<Repository, D> {
    pub repository: Repository,
    pub decider: D,
}

impl<Repository, D> EventSourcedAggregate<Repository, D> where
    D: Decider,
    D::Command: Identifier + DeciderType,
    D::Event: Faithful + Identifier + EventType + IsFinal + DeciderType,
    Repository: EventRepository<D::Command, D::Event>,
 {
    pub fn new(repository: Repository, decider: D) -> (aggregate: Self)
        ensures
            aggregate.repository == repository,
            aggregate.decider == decider,
    {
        EventSourcedAggregate { repository, decider }
    }

    /// What the decider decides on the command for a stream with the given
    /// events.
    pub fn compute_new_events(&self, current_events: &[D::Event], command: &D::Command) -> (computed:
        Result<Vec<D::Event>, D::Error>)
        ensures
            computed.model() == decision_on(
                self.decider,
                models(current_events@),
                command.model(),
            ),
    {
        compute_new_events(&self.decider, current_events, command)
    }

    /// What the decider decides on the command for the stream that the
    /// command targets, as the store holds it.
    pub open spec fn decision(self, command: CommandOf<D>) -> Result<Seq<EventOf<D>>, ErrorOf<D>> {
        decision_on(
            self.decider,
            target_events::<D::Command, EventOf<D>>(self.repository.log(), command),
            command,
        )
    }

    /// The version of the stream that the command targets, as the store
    /// holds it.
    pub open spec fn version(self, command: CommandOf<D>) -> Option<Uuid> {
        target_version::<D::Command, EventOf<D>>(self.repository.log(), command)
    }

    /// Handles the command: decides on the history of the stream it targets
    /// and records the new events behind the version of that stream. When
    /// the command is rejected, or the store fails, or finds that the events
    /// do not go behind that version or that their stream is closed, nothing
    /// is recorded.
    pub fn handle(&mut self, command: &D::Command) -> (handled: Result<
        Vec<(D::Event, Uuid)>,
        AggregateError<D::Error>,
    >)
        ensures
            final(self).decider == old(self).decider,
            final(self).repository.never_fails() == old(self).repository.never_fails(),
            match handled {
                Ok(saved) => {
                    &&& old(self).decision(command.model()) == Ok::<
                        Seq<EventOf<D>>,
                        ErrorOf<D>,
                    >(events_of(saved.model()))
                    &&& !conflicts::<D::Event>(
                        old(self).repository.log(),
                        events_of(saved.model()),
                        old(self).version(command.model()),
                    )
                    &&& !blocked::<D::Event>(old(self).repository.log(), events_of(saved.model()))
                    &&& final(self).repository.log() == appended_in_chain::<D::Event>(
                        old(self).repository.log(),
                        events_of(saved.model()),
                        versions_of(saved.model()),
                        old(self).version(command.model()),
                    )
                },
                Err(AggregateError::Rejected(reason)) => {
                    &&& old(self).decision(command.model()) == Err::<
                        Seq<EventOf<D>>,
                        ErrorOf<D>,
                    >(reason.model())
                    &&& final(self).repository.log() == old(self).repository.log()
                },
                Err(AggregateError::Infrastructure(_)) => {
                    &&& !old(self).repository.never_fails() || (old(self).decision(
                        command.model(),
                    ) matches Ok(events) && (conflicts::<D::Event>(
                        old(self).repository.log(),
                        events,
                        old(self).version(command.model()),
                    ) || blocked::<D::Event>(old(self).repository.log(), events)))
                    &&& final(self).repository.log() == old(self).repository.log()
                },
            },
    {
        let events = match self.repository.fetch_events(command) {
            Ok(events) => events,
            Err(message) => {
                return Err(AggregateError::Infrastructure(message));
            },
        };
        let mut version: Option<Uuid> = None;
        if events.len() > 0 {
            version = Some(events[events.len() - 1].1);
        }
        let current_events = strip_versions(events);
        let new_events = match compute_new_events(
            &self.decider,
            current_events.as_slice(),
            command,
        ) {
            Ok(new_events) => new_events,
            Err(reason) => {
                return Err(AggregateError::Rejected(reason));
            },
        };
        match self.repository.save(new_events.as_slice(), &version) {
            Ok(saved) => Ok(saved),
            Err(message) => Err(AggregateError::Infrastructure(message)),
        }
    }
}

// ###################################################################
// ################### Orchestrating Aggregate #######################
// ###################################################################

/// All the events that a command causes: the events that the decider decides
/// on it for a stream with the given events, followed, for each command that
/// the saga asks for in reaction to those events, in order, by all the
/// events that this command causes in turn. A command that follows sees the
/// history of its own stream in the log and, behind it, the events just
/// decided, though these are not in the log yet. The first rejection, in
/// that order, rejects the whole.
pub open spec fn new_events<D, S>(
    decider: D,
    saga: S,
    log: Seq<EventRecordModel<EventOf<D>>>,
    current_events: Seq<EventOf<D>>,
    command: CommandOf<D>,
) -> Result<Seq<EventOf<D>>, ErrorOf<D>> where
    D: Decider,
    D::Command: Identifier + DeciderType,
    S: Choreography<D>,

    decreases saga.rank(command), 1nat, 0nat,
{
    match decision_on(decider, current_events, command) {
        Err(reason) => Err(reason),
        Ok(initial_events) => match follow_ups(
            decider,
            saga,
            log,
            initial_events,
            reactions(saga, initial_events),
            saga.rank(command),
        ) {
            Err(reason) => Err(reason),
            Ok(more) => Ok(initial_events + more),
        },
    }
}

/// All the events that the commands cause, one command after the other,
/// where each sees the history of its own stream followed by the events
/// that were just decided. Only commands of a rank under the bound are
/// followed; with a choreography all of them are.
pub open spec fn follow_ups<D, S>(
    decider: D,
    saga: S,
    log: Seq<EventRecordModel<EventOf<D>>>,
    initial_events: Seq<EventOf<D>>,
    commands: Seq<CommandOf<D>>,
    bound: nat,
) -> Result<Seq<EventOf<D>>, ErrorOf<D>> where
    D: Decider,
    D::Command: Identifier + DeciderType,
    S: Choreography<D>,

    decreases bound, 0nat, commands.len(),
{
    if commands.len() == 0 {
        Ok(Seq::empty())
    } else if saga.rank(commands.first()) < bound {
        let command = commands.first();
        let visible = target_events::<D::Command, EventOf<D>>(log, command) + initial_events;
        match new_events(decider, saga, log, visible, command) {
            Err(reason) => Err(reason),
            Ok(events) => match follow_ups(
                decider,
                saga,
                log,
                initial_events,
                commands.drop_first(),
                bound,
            ) {
                Err(reason) => Err(reason),
                Ok(more) => Ok(events + more),
            },
        }
    } else {
        follow_ups(decider, saga, log, initial_events, commands.drop_first(), bound)
    }
}

/// All the events that a batch of commands causes, one command after the
/// other. Each command sees the history of its own stream in the log and,
/// behind it, the events that the commands before it caused, though these
/// are not in the log yet. The first rejection rejects the whole batch.
pub open spec fn batch_events<D, S>(
    decider: D,
    saga: S,
    log: Seq<EventRecordModel<EventOf<D>>>,
    commands: Seq<CommandOf<D>>,
) -> Result<Seq<EventOf<D>>, ErrorOf<D>> where
    D: Decider,
    D::Command: Identifier + DeciderType,
    S: Choreography<D>,

    decreases commands.len(),
{
    if commands.len() == 0 {
        Ok(Seq::empty())
    } else {
        match batch_events(decider, saga, log, commands.drop_last()) {
            Err(reason) => Err(reason),
            Ok(earlier) => {
                let command = commands.last();
                let visible = target_events::<D::Command, EventOf<D>>(log, command) + earlier;
                match new_events(decider, saga, log, visible, command) {
                    Err(reason) => Err(reason),
                    Ok(events) => Ok(earlier + events),
                }
            },
        }
    }
}

/// A batch is rejected as soon as one of its commands is: the rejection of a
/// part of the batch, counted from its start, is the rejection of the whole.
pub proof fn batch_stops_at_rejection<D, S>(
    decider: D,
    saga: S,
    log: Seq<EventRecordModel<EventOf<D>>>,
    commands: Seq<CommandOf<D>>,
    k: int,
) where D: Decider, D::Command: Identifier + DeciderType, S: Choreography<D>
    requires
        0 <= k <= commands.len(),
        batch_events(decider, saga, log, commands.take(k)) is Err,
    ensures
        batch_events(decider, saga, log, commands) == batch_events(
            decider,
            saga,
            log,
            commands.take(k),
        ),
    decreases commands.len(),
{
    if k == commands.len() {
        assert(commands.take(k) =~= commands);
    } else {
        assert(commands.drop_last().take(k) =~= commands.take(k));
        batch_stops_at_rejection(decider, saga, log, commands.drop_last(), k);
    }
}

/// An aggregate whose commands cause further commands: it lets the decider
/// decide, lets the saga react to what was decided, handles the commands
/// that the saga asks for in the same way, and records all the events that
/// came of it at once.
pub struct EventSourcedOrchestratingAggregate<Repository, D, S> {
    pub repository: Repository,
    pub decider: D,
    pub saga: S,
}

impl<Repository, D, S> EventSourcedOrchestratingAggregate<Repository, D, S> where
    D: Decider,
    D::Command: Identifier + DeciderType,
    D::Event: Faithful + Identifier + EventType + IsFinal + DeciderType,
    S: Choreography<D>,
    Repository: EventOrchestratingRepository<D::Command, D::Event>,
 {
    pub fn new(repository: Repository, decider: D, saga: S) -> (aggregate: Self)
        ensures
            aggregate.repository == repository,
            aggregate.decider == decider,
            aggregate.saga == saga,
    {
        EventSourcedOrchestratingAggregate { repository, decider, saga }
    }

    /// All the events that the command causes for a stream with the given
    /// events: those decided on it and those of every command that follows
    /// from them. Nothing is recorded.
    pub fn compute_new_events(&self, current_events: &[D::Event], command: &D::Command) -> (computed:
        Result<Vec<D::Event>, AggregateError<D::Error>>)
        ensures
            match computed {
                Ok(events) => new_events(
                    self.decider,
                    self.saga,
                    self.repository.log(),
                    models(current_events@),
                    command.model(),
                ) == Ok::<Seq<EventOf<D>>, ErrorOf<D>>(events.model()),
                Err(AggregateError::Rejected(reason)) => new_events(
                    self.decider,
                    self.saga,
                    self.repository.log(),
                    models(current_events@),
                    command.model(),
                ) == Err::<Seq<EventOf<D>>, ErrorOf<D>>(reason.model()),
                Err(AggregateError::Infrastructure(_)) => !self.repository.never_fails(),
            },
        decreases self.saga.rank(command.model()),
    {
        let ghost log = self.repository.log();
        let ghost bound = self.saga.rank(command.model());
        // What the decider decides on the command.
        let initial_events = match compute_new_events(&self.decider, current_events, command) {
            Ok(events) => events,
            Err(reason) => {
                return Err(AggregateError::Rejected(reason));
            },
        };
        // The commands that the saga asks for in reaction.
        let commands_to_process = react_to_all(&self.saga, initial_events.as_slice());
        let ghost initial = initial_events.model();
        let ghost commands = commands_to_process.model();
        let mut all_events = clone_vec(&initial_events);
        let ghost mut more: Seq<EventOf<D>> = Seq::empty();
        let mut i: usize = 0;
        proof {
            assert(commands.skip(0) =~= commands);
            assert(initial + more =~= initial);
        }
        while i < commands_to_process.len()
            invariant
                i <= commands_to_process.len(),
                log == self.repository.log(),
                bound == self.saga.rank(command.model()),
                initial == initial_events.model(),
                commands == commands_to_process.model(),
                decision_on(self.decider, models(current_events@), command.model()) == Ok::<
                    Seq<EventOf<D>>,
                    ErrorOf<D>,
                >(initial),
                commands == reactions(self.saga, initial),
                all_events.model() == initial + more,
                match follow_ups(
                    self.decider,
                    self.saga,
                    log,
                    initial,
                    commands.skip(i as int),
                    bound,
                ) {
                    Ok(rest) => follow_ups(self.decider, self.saga, log, initial, commands, bound)
                        == Ok::<Seq<EventOf<D>>, ErrorOf<D>>(more + rest),
                    Err(reason) => follow_ups(
                        self.decider,
                        self.saga,
                        log,
                        initial,
                        commands,
                        bound,
                    ) == Err::<Seq<EventOf<D>>, ErrorOf<D>>(reason),
                },
            decreases commands_to_process.len() - i,
        {
            let next = &commands_to_process[i];
            proof {
                let source = reaction_source(self.saga, initial, i as int);
                self.saga.reactions_rank_lower(
                    self.decider,
                    command.model(),
                    state_of(self.decider, models(current_events@)),
                    source.0,
                    source.1,
                );
                assert(commands.skip(i as int).first() == next.model());
                assert(commands.skip(i as int).drop_first() =~= commands.skip(i as int + 1));
            }
            let fetched = match self.repository.fetch_events(next) {
                Ok(fetched) => fetched,
                Err(message) => {
                    return Err(AggregateError::Infrastructure(message));
                },
            };
            // What the command sees: the history of its stream, then the
            // events that were just decided.
            let mut previous_events = strip_versions(fetched);
            let mut decided = clone_vec(&initial_events);
            proof {
                models_add(previous_events@, decided@);
            }
            previous_events.append(&mut decided);
            let mut caused = match self.compute_new_events(previous_events.as_slice(), next) {
                Ok(caused) => caused,
                Err(error) => {
                    return Err(error);
                },
            };
            proof {
                models_add(all_events@, caused@);
                let rest = follow_ups(
                    self.decider,
                    self.saga,
                    log,
                    initial,
                    commands.skip(i as int + 1),
                    bound,
                );
                if rest is Ok {
                    assert((more + caused.model()) + rest->Ok_0 =~= more + (caused.model()
                        + rest->Ok_0));
                }
                assert(initial + (more + caused.model()) =~= (initial + more) + caused.model());
                more = more + caused.model();
            }
            all_events.append(&mut caused);
            i += 1;
        }
        proof {
            assert(commands.skip(i as int) =~= Seq::empty());
            assert(more + Seq::empty() =~= more);
        }
        Ok(all_events)
    }

    /// All the events that the command causes on the stream that it
    /// targets, as the store holds it.
    pub open spec fn outcome(self, command: CommandOf<D>) -> Result<Seq<EventOf<D>>, ErrorOf<D>> {
        new_events(
            self.decider,
            self.saga,
            self.repository.log(),
            target_events::<D::Command, EventOf<D>>(self.repository.log(), command),
            command,
        )
    }

    /// All the events that the batch of commands causes on the log that the
    /// store holds.
    pub open spec fn batch_outcome(self, commands: Seq<CommandOf<D>>) -> Result<
        Seq<EventOf<D>>,
        ErrorOf<D>,
    > {
        batch_events(self.decider, self.saga, self.repository.log(), commands)
    }

    /// Handles the command: computes all the events that it causes on the
    /// history of the stream it targets, and records them at once. When the
    /// command or one that follows from it is rejected, or the store fails
    /// or finds that an event belongs to a stream that is closed, nothing is
    /// recorded.
    pub fn handle(&mut self, command: &D::Command) -> (handled: Result<
        Vec<(D::Event, Uuid)>,
        AggregateError<D::Error>,
    >)
        ensures
            final(self).decider == old(self).decider,
            final(self).saga == old(self).saga,
            final(self).repository.never_fails() == old(self).repository.never_fails(),
            match handled {
                Ok(saved) => {
                    &&& old(self).outcome(command.model()) == Ok::<Seq<EventOf<D>>, ErrorOf<D>>(
                        events_of(saved.model()),
                    )
                    &&& !blocked::<D::Event>(old(self).repository.log(), events_of(saved.model()))
                    &&& final(self).repository.log() == appended::<D::Event>(
                        old(self).repository.log(),
                        events_of(saved.model()),
                        versions_of(saved.model()),
                    )
                },
                Err(AggregateError::Rejected(reason)) => {
                    &&& old(self).outcome(command.model()) == Err::<Seq<EventOf<D>>, ErrorOf<D>>(
                        reason.model(),
                    )
                    &&& final(self).repository.log() == old(self).repository.log()
                },
                Err(AggregateError::Infrastructure(_)) => {
                    &&& !old(self).repository.never_fails() || (old(self).outcome(
                        command.model(),
                    ) matches Ok(events) && blocked::<D::Event>(
                        old(self).repository.log(),
                        events,
                    ))
                    &&& final(self).repository.log() == old(self).repository.log()
                },
            },
    {
        let fetched = match self.repository.fetch_events(command) {
            Ok(fetched) => fetched,
            Err(message) => {
                return Err(AggregateError::Infrastructure(message));
            },
        };
        let events = strip_versions(fetched);
        let new_events = match self.compute_new_events(events.as_slice(), command) {
            Ok(new_events) => new_events,
            Err(error) => {
                return Err(error);
            },
        };
        match self.repository.save(new_events.as_slice()) {
            Ok(saved) => Ok(saved),
            Err(message) => Err(AggregateError::Infrastructure(message)),
        }
    }

    /// Handles the commands in order and records all the events they cause
    /// at once. A command sees what the commands before it caused, though
    /// nothing of that is recorded yet. When one command is rejected, or the
    /// store fails or finds that an event belongs to a stream that is
    /// closed, nothing is recorded.
    pub fn handle_all(&mut self, commands: &[D::Command]) -> (handled: Result<
        Vec<(D::Event, Uuid)>,
        AggregateError<D::Error>,
    >)
        ensures
            final(self).decider == old(self).decider,
            final(self).saga == old(self).saga,
            final(self).repository.never_fails() == old(self).repository.never_fails(),
            match handled {
                Ok(saved) => {
                    &&& old(self).batch_outcome(models(commands@)) == Ok::<
                        Seq<EventOf<D>>,
                        ErrorOf<D>,
                    >(events_of(saved.model()))
                    &&& !blocked::<D::Event>(old(self).repository.log(), events_of(saved.model()))
                    &&& final(self).repository.log() == appended::<D::Event>(
                        old(self).repository.log(),
                        events_of(saved.model()),
                        versions_of(saved.model()),
                    )
                },
                Err(AggregateError::Rejected(reason)) => {
                    &&& old(self).batch_outcome(models(commands@)) == Err::<
                        Seq<EventOf<D>>,
                        ErrorOf<D>,
                    >(reason.model())
                    &&& final(self).repository.log() == old(self).repository.log()
                },
                Err(AggregateError::Infrastructure(_)) => {
                    &&& !old(self).repository.never_fails() || (old(self).batch_outcome(
                        models(commands@),
                    ) matches Ok(events) && blocked::<D::Event>(
                        old(self).repository.log(),
                        events,
                    ))
                    &&& final(self).repository.log() == old(self).repository.log()
                },
            },
    {
        let ghost log = self.repository.log();
        let mut all_new_events: Vec<D::Event> = Vec::new();
        let mut i: usize = 0;
        proof {
            assert(all_new_events.model() =~= Seq::empty());
        }
        while i < commands.len()
            invariant
                i <= commands.len(),
                *self == *old(self),
                log == self.repository.log(),
                batch_events(
                    self.decider,
                    self.saga,
                    log,
                    models(commands@.take(i as int)),
                ) == Ok::<Seq<EventOf<D>>, ErrorOf<D>>(
                    all_new_events.model(),
                ),
            decreases commands.len() - i,
        {
            let command = &commands[i];
            proof {
                let upto = models(commands@.take(i as int + 1));
                assert(upto.drop_last() =~= models(commands@.take(i as int)));
                assert(upto.last() == command.model());
                assert(models(commands@).take(i as int + 1) =~= upto);
            }
            let fetched = match self.repository.fetch_events(command) {
                Ok(fetched) => fetched,
                Err(message) => {
                    return Err(AggregateError::Infrastructure(message));
                },
            };
            // What the command sees: the history of its stream, then what
            // the commands before it caused.
            let mut combined_events = strip_versions(fetched);
            let mut earlier = clone_vec(&all_new_events);
            proof {
                models_add(combined_events@, earlier@);
            }
            combined_events.append(&mut earlier);
            let mut new_events = match self.compute_new_events(
                combined_events.as_slice(),
                command,
            ) {
                Ok(new_events) => new_events,
                Err(AggregateError::Rejected(reason)) => {
                    proof {
                        batch_stops_at_rejection(
                            self.decider,
                            self.saga,
                            log,
                            models(commands@),
                            i as int + 1,
                        );
                    }
                    return Err(AggregateError::Rejected(reason));
                },
                Err(AggregateError::Infrastructure(message)) => {
                    return Err(AggregateError::Infrastructure(message));
                },
            };
            proof {
                models_add(all_new_events@, new_events@);
            }
            all_new_events.append(&mut new_events);
            i += 1;
        }
        proof {
            assert(commands@.take(i as int) =~= commands@);
        }
        match self.repository.save(all_new_events.as_slice()) {
            Ok(saved) => Ok(saved),
            Err(message) => Err(AggregateError::Infrastructure(message)),
        }
    }
}

/// A command to which the saga has no reaction causes the events that the
/// decider decides on it, and no other.
pub proof fn without_reaction_the_decision_stands<D, S>(
    decider: D,
    saga: S,
    log: Seq<EventRecordModel<EventOf<D>>>,
    current_events: Seq<EventOf<D>>,
    command: CommandOf<D>,
) where D: Decider, D::Command: Identifier + DeciderType, S: Choreography<D>
    requires
        decision_on(decider, current_events, command) matches Ok(initial_events) ==> reactions(
            saga,
            initial_events,
        ).len() == 0,
    ensures
        new_events(decider, saga, log, current_events, command) == decision_on(
            decider,
            current_events,
            command,
        ),
{
    if let Ok(initial_events) = decision_on(decider, current_events, command) {
        assert(initial_events + Seq::empty() =~= initial_events);
    }
}

/// A command whose decided events cause one reaction causes those events and,
/// behind them, all the events that the reaction causes. The reaction sees
/// the history of its own stream followed by the events just decided, though
/// these are not in the log. When the reaction is rejected, so is the
/// command.
pub proof fn reaction_follows_the_decision<D, S>(
    decider: D,
    saga: S,
    log: Seq<EventRecordModel<EventOf<D>>>,
    current_events: Seq<EventOf<D>>,
    command: CommandOf<D>,
    initial_events: Seq<EventOf<D>>,
    reaction: CommandOf<D>,
) where D: Decider, D::Command: Identifier + DeciderType, S: Choreography<D>
    requires
        decision_on(decider, current_events, command) == Ok::<
            Seq<EventOf<D>>,
            ErrorOf<D>,
        >(initial_events),
        reactions(saga, initial_events) == seq![reaction],
    ensures
        new_events(decider, saga, log, current_events, command) == match new_events(
            decider,
            saga,
            log,
            target_events::<D::Command, EventOf<D>>(log, reaction) + initial_events,
            reaction,
        ) {
            Ok(caused) => Ok(initial_events + caused),
            Err(reason) => Err(reason),
        },
{
    let commands = reactions(saga, initial_events);
    let source = reaction_source(saga, initial_events, 0);
    saga.reactions_rank_lower(
        decider,
        command,
        state_of(decider, current_events),
        source.0,
        source.1,
    );
    assert(commands.first() == reaction);
    assert(commands.drop_first().len() == 0);
    let bound = saga.rank(command);
    assert(follow_ups(decider, saga, log, initial_events, commands.drop_first(), bound) == Ok::<
        Seq<EventOf<D>>,
        ErrorOf<D>,
    >(Seq::empty()));
    let visible = target_events::<D::Command, EventOf<D>>(log, reaction) + initial_events;
    if let Ok(caused) = new_events(decider, saga, log, visible, reaction) {
        assert(caused + Seq::empty() =~= caused);
        assert(follow_ups(decider, saga, log, initial_events, commands, bound) == Ok::<
            Seq<EventOf<D>>,
            ErrorOf<D>,
        >(caused));
    }
}

/// A batch of one command causes what the command alone causes on the
/// history of its stream.
pub proof fn batch_of_one_is_the_command<D, S>(
    decider: D,
    saga: S,
    log: Seq<EventRecordModel<EventOf<D>>>,
    command: CommandOf<D>,
) where D: Decider, D::Command: Identifier + DeciderType, S: Choreography<D>
    ensures
        batch_events(decider, saga, log, seq![command]) == new_events(
            decider,
            saga,
            log,
            target_events::<D::Command, EventOf<D>>(log, command),
            command,
        ),
{
    let commands = seq![command];
    let history = target_events::<D::Command, EventOf<D>>(log, command);
    assert(commands.drop_last().len() == 0);
    assert(batch_events(decider, saga, log, commands.drop_last()) == Ok::<
        Seq<EventOf<D>>,
        ErrorOf<D>,
    >(Seq::empty()));
    assert(commands.last() == command);
    assert(history + Seq::empty() =~= history);
    if let Ok(events) = new_events(decider, saga, log, history, command) {
        assert(Seq::empty() + events =~= events);
    }
}

/// In a batch of two commands the second sees what the first caused: it is
/// decided on the history of its own stream followed by all the events that
/// the first command caused, though none of them is in the log. The batch
/// causes the events of the first command followed by those of the second,
/// and is rejected when either command is.
pub proof fn second_command_sees_the_first<D, S>(
    decider: D,
    saga: S,
    log: Seq<EventRecordModel<EventOf<D>>>,
    first: CommandOf<D>,
    second: CommandOf<D>,
) where D: Decider, D::Command: Identifier + DeciderType, S: Choreography<D>
    ensures
        batch_events(decider, saga, log, seq![first, second]) == match new_events(
            decider,
            saga,
            log,
            target_events::<D::Command, EventOf<D>>(log, first),
            first,
        ) {
            Err(reason) => Err(reason),
            Ok(earlier) => match new_events(
                decider,
                saga,
                log,
                target_events::<D::Command, EventOf<D>>(log, second) + earlier,
                second,
            ) {
                Err(reason) => Err(reason),
                Ok(events) => Ok(earlier + events),
            },
        },
{
    let commands = seq![first, second];
    assert(commands.drop_last() =~= seq![first]);
    assert(commands.last() == second);
    batch_of_one_is_the_command(decider, saga, log, first);
}

} // verus!
