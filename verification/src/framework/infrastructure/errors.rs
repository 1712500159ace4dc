use crate::model::{Faithful, Model};
use vstd::prelude::*;

verus! {

/// What a store reports when it cannot do what it was asked to.
#[derive(Debug, PartialEq, Eq)]
pub struct ErrorMessage {
    pub message: String,
}

impl Model for ErrorMessage {
    type M = Seq<char>;

    open spec fn model(&self) -> Seq<char> {
        self.message@
    }
}

impl Clone for ErrorMessage {
    fn clone(&self) -> (copy: Self)
        ensures
            copy.model() == self.model(),
    {
        ErrorMessage { message: self.message.clone() }
    }
}

impl Faithful for ErrorMessage {
    proof fn copy_has_model(source: Self, copy: Self) {
    }
}

} // verus!
