use crate::framework::domain::api::Identifier;
use crate::framework::infrastructure::errors::ErrorMessage;
use crate::model::{models, same_uuid, Faithful, Model};
use uuid::Uuid;
use vstd::prelude::*;

verus! {

/// A store of projected states, the read side of the system. It holds one
/// state for each entity, the one that was saved last.
pub trait ViewStateRepository<E: Model, S: Model> {
    /// The state that the store holds for the entity of the event. Of a
    /// store that does not say what it holds, nothing is known.
    open spec fn state_for(&self, event: E::M) -> Option<S::M> {
        arbitrary()
    }

    /// Whether the store answers every request that can be answered. A
    /// store that does not say so may fail.
    open spec fn never_fails(&self) -> bool {
        false
    }

    /// Whether the state can be stored: whether it says which entity it is
    /// the state of.
    open spec fn storable(state: S::M) -> bool {
        arbitrary()
    }

    /// Whether the state is a state of the entity of the event.
    open spec fn describes(state: S::M, event: E::M) -> bool {
        arbitrary()
    }

    /// Fetches the state of the entity that the event belongs to.
    fn fetch_state(&self, event: &E) -> (fetched: Result<Option<S>, ErrorMessage>)
        ensures
            self.never_fails() ==> fetched is Ok,
            fetched matches Ok(found) ==> found.model() == self.state_for(event.model()),
    ;

    /// Saves the state in place of the one held for its entity. When it
    /// fails, it has changed nothing.
    fn save(&mut self, state: &S) -> (saved: Result<S, ErrorMessage>)
        ensures
            final(self).never_fails() == old(self).never_fails(),
            !Self::storable(state.model()) ==> saved is Err,
            old(self).never_fails() && Self::storable(state.model()) ==> saved is Ok,
            saved matches Ok(stored) ==> stored.model() == state.model() && forall|event: E::M|
                #[trigger] final(self).state_for(event) == if Self::describes(
                    state.model(),
                    event,
                ) {
                    Some(state.model())
                } else {
                    old(self).state_for(event)
                },
            saved is Err ==> forall|event: E::M|
                #[trigger] final(self).state_for(event) == old(self).state_for(event),
    ;
}

/// The row that counts for an entity: the last one written for it.
pub open spec fn row_of<S: Identifier>(rows: Seq<S::M>, identifier: Uuid) -> Option<S::M>
    decreases rows.len(),
{
    if rows.len() == 0 {
        None
    } else if S::identifier_of(rows.last()) == identifier {
        Some(rows.last())
    } else {
        row_of::<S>(rows.drop_last(), identifier)
    }
}

/// Finds the row that counts for an entity: the last one written for it.
pub fn find_row<S: Identifier + Faithful>(rows: &Vec<S>, identifier: &Uuid) -> (found: Option<S>)
    ensures
        found.model() == row_of::<S>(rows.model(), *identifier),
{
    let mut i: usize = rows.len();
    proof {
        assert(rows@.take(i as int) =~= rows@);
    }
    while i > 0
        invariant
            i <= rows.len(),
            row_of::<S>(rows.model(), *identifier) == row_of::<S>(
                models(rows@.take(i as int)),
                *identifier,
            ),
        decreases i,
    {
        let ghost upto = models(rows@.take(i as int));
        proof {
            assert(upto.last() == rows@[i as int - 1].model());
            assert(upto.drop_last() =~= models(rows@.take(i as int - 1)));
        }
        i -= 1;
        let id = rows[i].identifier();
        if same_uuid(&id, identifier) {
            let row = rows[i].clone();
            proof {
                S::copy_has_model(rows@[i as int], row);
            }
            return Some(row);
        }
    }
    None
}

} // verus!
