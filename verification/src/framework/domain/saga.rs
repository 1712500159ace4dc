use crate::framework::domain::decider::{CommandOf, Decider, StateOf};
use crate::model::{models, Model};
use fmodel_rust::Sum;
use vstd::prelude::*;

verus! {

/// The reaction algebra of a choreography: which follow-up actions a result
/// calls for. No action means no reaction.
pub trait Saga {
    /// What the saga reacts to: the result of an earlier action, an event.
    type ActionResult: Model;

    /// What the saga asks for: a command.
    type Action: Model;

    /// The actions that the result calls for, in order.
    spec fn react_model(&self, result: <Self::ActionResult as Model>::M) -> Seq<
        <Self::Action as Model>::M,
    >;

    /// Reacts to the result with the actions it calls for.
    fn react(&self, result: &Self::ActionResult) -> (actions: Vec<Self::Action>)
        ensures
            actions.model() == self.react_model(result.model()),
    ;
}

/// The reactions to each of the results, in the order of the results and,
/// for one result, in the order of its reactions.
pub open spec fn reactions<S: Saga>(saga: S, results: Seq<<S::ActionResult as Model>::M>) -> Seq<
    <S::Action as Model>::M,
>
    decreases results.len(),
{
    if results.len() == 0 {
        Seq::empty()
    } else {
        reactions(saga, results.drop_last()) + saga.react_model(results.last())
    }
}

/// Collects the reactions to each of the results.
pub fn react_to_all<S: Saga>(saga: &S, results: &[S::ActionResult]) -> (actions: Vec<S::Action>)
    ensures
        actions.model() == reactions(*saga, models(results@)),
{
    let mut actions: Vec<S::Action> = Vec::new();
    let mut i: usize = 0;
    assert(actions.model() =~= Seq::empty());
    while i < results.len()
        invariant
            i <= results.len(),
            actions.model() == reactions(*saga, models(results@.take(i as int))),
        decreases results.len() - i,
    {
        let mut more = saga.react(&results[i]);
        proof {
            let upto = models(results@.take(i as int + 1));
            assert(upto.drop_last() =~= models(results@.take(i as int)));
            assert(upto.last() == results@[i as int].model());
            assert(models(actions@ + more@) =~= models(actions@) + models(more@));
        }
        actions.append(&mut more);
        i += 1;
    }
    proof {
        assert(results@.take(i as int) =~= results@);
    }
    actions
}

/// Each item of a sequence as the first side of a choice.
pub open spec fn actions_first<A, B>(items: Seq<A>) -> Seq<Sum<A, B>> {
    Seq::new(items.len(), |i: int| Sum::First(items[i]))
}

/// Each item of a sequence as the second side of a choice.
pub open spec fn actions_second<A, B>(items: Seq<B>) -> Seq<Sum<A, B>> {
    Seq::new(items.len(), |i: int| Sum::Second(items[i]))
}

/// Two sagas as one. A result is a result for either saga and goes to that
/// saga alone; the other contributes nothing. The actions of the first saga
/// come out as the second side of the choice of actions, those of the second
/// saga as the first side.
pub struct CombinedSaga<A, B> {
    pub first: A,
    pub second: B,
}

impl<A: Saga, B: Saga> Saga for CombinedSaga<A, B> {
    type ActionResult = Sum<A::ActionResult, B::ActionResult>;

    type Action = Sum<B::Action, A::Action>;

    open spec fn react_model(
        &self,
        result: Sum<<A::ActionResult as Model>::M, <B::ActionResult as Model>::M>,
    ) -> Seq<Sum<<B::Action as Model>::M, <A::Action as Model>::M>> {
        match result {
            Sum::First(r) => actions_second(self.first.react_model(r)),
            Sum::Second(r) => actions_first(self.second.react_model(r)),
        }
    }

    fn react(&self, result: &Self::ActionResult) -> (actions: Vec<Self::Action>) {
        match result {
            Sum::First(r) => {
                let found = self.first.react(r);
                let mut actions: Vec<Sum<B::Action, A::Action>> = Vec::new();
                for action in iter: found
                    invariant
                        actions.len() == iter.index(),
                        forall|j: int|
                            0 <= j < actions.len() ==> actions[j] == Sum::<
                                B::Action,
                                A::Action,
                            >::Second(iter.seq()[j]),
                {
                    actions.push(Sum::Second(action));
                }
                assert(actions.model() =~= actions_second::<
                    <B::Action as Model>::M,
                    <A::Action as Model>::M,
                >(found.model()));
                actions
            },
            Sum::Second(r) => {
                let found = self.second.react(r);
                let mut actions: Vec<Sum<B::Action, A::Action>> = Vec::new();
                for action in iter: found
                    invariant
                        actions.len() == iter.index(),
                        forall|j: int|
                            0 <= j < actions.len() ==> actions[j] == Sum::<
                                B::Action,
                                A::Action,
                            >::First(iter.seq()[j]),
                {
                    actions.push(Sum::First(action));
                }
                assert(actions.model() =~= actions_first::<
                    <B::Action as Model>::M,
                    <A::Action as Model>::M,
                >(found.model()));
                actions
            },
        }
    }
}

/// Combines two sagas into one that reacts to the results of both.
pub fn combine<A: Saga, B: Saga>(first: A, second: B) -> (combined: CombinedSaga<A, B>)
    ensures
        combined.first == first,
        combined.second == second,
{
    CombinedSaga { first, second }
}

/// Where a reaction comes from: each of the reactions to a sequence of
/// results is one of the reactions to one of the results.
pub proof fn reaction_source<S: Saga>(
    saga: S,
    results: Seq<<S::ActionResult as Model>::M>,
    k: int,
) -> (source: (int, int))
    requires
        0 <= k < reactions(saga, results).len(),
    ensures
        0 <= source.0 < results.len(),
        0 <= source.1 < saga.react_model(results[source.0]).len(),
        reactions(saga, results)[k] == saga.react_model(results[source.0])[source.1],
    decreases results.len(),
{
    let earlier = reactions(saga, results.drop_last());
    if k < earlier.len() {
        reaction_source(saga, results.drop_last(), k)
    } else {
        (results.len() - 1, k - earlier.len())
    }
}

/// A saga whose reactions to what a decider decides come to an end. Each
/// command has a rank, and a command that follows from another has a lower
/// rank than that one: a command of rank `n` starts a cascade at most `n`
/// reactions deep.
pub trait Choreography<D: Decider>: Saga<ActionResult = D::Event, Action = D::Command> {
    /// How deep a cascade of reactions the command can start, at most.
    spec fn rank(&self, command: CommandOf<D>) -> nat;

    /// Whatever the decider decides on a command in whatever state, each
    /// reaction to each of the events decided has a lower rank than the
    /// command.
    proof fn reactions_rank_lower(
        &self,
        decider: D,
        command: CommandOf<D>,
        state: StateOf<D>,
        i: int,
        j: int,
    )
        requires
            decider.decide_model(command, state) is Ok,
            0 <= i < decider.decide_model(command, state)->Ok_0.len(),
            0 <= j < self.react_model(decider.decide_model(command, state)->Ok_0[i]).len(),
        ensures
            self.rank(self.react_model(decider.decide_model(command, state)->Ok_0[i])[j])
                < self.rank(command),
    ;
}

/// A result for the first saga gets the reactions of the first saga and no
/// other: the second saga contributes nothing to it.
pub proof fn first_side_result_reaches_first_saga<A: Saga, B: Saga>(
    combined: CombinedSaga<A, B>,
    result: <A::ActionResult as Model>::M,
)
    ensures
        combined.react_model(Sum::First(result)).len() == combined.first.react_model(
            result,
        ).len(),
        forall|i: int|
            0 <= i < combined.first.react_model(result).len() ==> combined.react_model(
                Sum::First(result),
            )[i] == Sum::<<B::Action as Model>::M, <A::Action as Model>::M>::Second(
                combined.first.react_model(result)[i],
            ),
{
}

/// A result for the second saga gets the reactions of the second saga and
/// no other: the first saga contributes nothing to it.
pub proof fn second_side_result_reaches_second_saga<A: Saga, B: Saga>(
    combined: CombinedSaga<A, B>,
    result: <B::ActionResult as Model>::M,
)
    ensures
        combined.react_model(Sum::Second(result)).len() == combined.second.react_model(
            result,
        ).len(),
        forall|i: int|
            0 <= i < combined.second.react_model(result).len() ==> combined.react_model(
                Sum::Second(result),
            )[i] == Sum::<<B::Action as Model>::M, <A::Action as Model>::M>::First(
                combined.second.react_model(result)[i],
            ),
{
}

} // verus!
