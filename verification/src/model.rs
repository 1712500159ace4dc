use fmodel_rust::Sum;
use uuid::Uuid;
use vstd::prelude::*;

verus! {

/// Identifiers are the universally unique identifiers of the `uuid` crate.
/// Nothing is known of what is inside one: two identifiers are equal, or
/// they are not.
#[verifier::external_type_specification]
#[verifier::external_body]
pub struct ExUuid(Uuid);

/// The choice of `fmodel_rust` between a value of a first kind and a value of
/// a second kind, with its two variants `First` and `Second` as that crate
/// declares them.
#[verifier::external_type_specification]
#[verifier::reject_recursive_types(A)]
#[verifier::reject_recursive_types(B)]
pub struct ExSum<A, B>(Sum<A, B>);

/// Whether two identifiers are the same, by `Uuid`'s own `==`. That `==` is
/// derived for the sixteen bytes that an identifier is made of, so it holds
/// of two identifiers exactly when they are one and the same value.
#[verifier::external_body]
pub(crate) fn same_uuid(left: &Uuid, right: &Uuid) -> (same: bool)
    ensures
        same == (*left == *right),
{
    left == right
}

/// The mathematical value that a piece of data stands for. Contracts speak of
/// models: two strings or two vectors with the same content have the same
/// model, wherever they live in memory.
pub trait Model {
    /// The kind of mathematical value that the data stands for.
    type M;

    /// What this piece of data stands for.
    spec fn model(&self) -> Self::M;
}

impl Model for bool {
    type M = bool;

    open spec fn model(&self) -> bool {
        *self
    }
}

impl Model for u32 {
    type M = u32;

    open spec fn model(&self) -> u32 {
        *self
    }
}

impl Model for u64 {
    type M = u64;

    open spec fn model(&self) -> u64 {
        *self
    }
}

impl Model for Uuid {
    type M = Uuid;

    open spec fn model(&self) -> Uuid {
        *self
    }
}

impl Model for String {
    type M = Seq<char>;

    open spec fn model(&self) -> Seq<char> {
        self@
    }
}

impl<T: Model> Model for Option<T> {
    type M = Option<T::M>;

    open spec fn model(&self) -> Option<T::M> {
        match self {
            Some(t) => Some(t.model()),
            None => None,
        }
    }
}

impl<T: Model, E: Model> Model for Result<T, E> {
    type M = Result<T::M, E::M>;

    open spec fn model(&self) -> Result<T::M, E::M> {
        match self {
            Ok(t) => Ok(t.model()),
            Err(e) => Err(e.model()),
        }
    }
}

impl<A: Model, B: Model> Model for (A, B) {
    type M = (A::M, B::M);

    open spec fn model(&self) -> (A::M, B::M) {
        (self.0.model(), self.1.model())
    }
}

impl<A: Model, B: Model> Model for Sum<A, B> {
    type M = Sum<A::M, B::M>;

    open spec fn model(&self) -> Sum<A::M, B::M> {
        match self {
            Sum::First(a) => Sum::First(a.model()),
            Sum::Second(b) => Sum::Second(b.model()),
        }
    }
}

/// The models of the items of a sequence, in the same order.
pub open spec fn models<T: Model>(items: Seq<T>) -> Seq<T::M> {
    Seq::new(items.len(), |i: int| items[i].model())
}

impl<T: Model> Model for Vec<T> {
    type M = Seq<T::M>;

    open spec fn model(&self) -> Seq<T::M> {
        models(self@)
    }
}

/// The models of a sequence with one more item are the models of the
/// sequence with the model of that item behind them.
pub proof fn models_push<T: Model>(items: Seq<T>, item: T)
    ensures
        models(items.push(item)) == models(items).push(item.model()),
{
    assert(models(items.push(item)) =~= models(items).push(item.model()));
}

/// The models of two sequences joined are the models of the first followed by
/// the models of the second.
pub proof fn models_add<T: Model>(front: Seq<T>, back: Seq<T>)
    ensures
        models(front + back) == models(front) + models(back),
{
    assert(models(front + back) =~= models(front) + models(back));
}

/// A type whose copies made by `Clone` have the model of what was copied.
pub trait Faithful: Model + Clone + Sized {
    /// A copy stands for what its source stands for.
    proof fn copy_has_model(source: Self, copy: Self)
        requires
            cloned::<Self>(source, copy),
        ensures
            copy.model() == source.model(),
    ;
}

impl<T: Faithful> Faithful for Option<T> {
    proof fn copy_has_model(source: Self, copy: Self) {
        if let Some(t) = source {
            if let Some(c) = copy {
                T::copy_has_model(t, c);
            }
        }
    }
}

impl<T: Faithful> Faithful for Vec<T> {
    proof fn copy_has_model(source: Self, copy: Self) {
        assert(copy.len() == source.len());
        assert forall|i: int| 0 <= i < source.len() implies copy[i].model()
            == source[i].model() by {
            T::copy_has_model(source[i], copy[i]);
        }
        assert(copy.model() =~= source.model());
    }
}

/// A copy of a vector, item by item.
pub fn clone_vec<T: Faithful>(items: &Vec<T>) -> (copy: Vec<T>)
    ensures
        copy.model() == items.model(),
{
    let copy = items.clone();
    proof {
        Vec::<T>::copy_has_model(*items, copy);
    }
    copy
}

} // verus!
