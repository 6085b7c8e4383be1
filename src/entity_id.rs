use std::marker::PhantomData;
use vstd::prelude::*;

verus! {

/// A handle to an entity, with no record of the entity's type.
#[derive(Clone, Copy, Debug, PartialEq, Eq, Structural)]
pub struct UntypedEntityID(pub usize);

/// A handle to an entity of type `T`.
#[derive(Debug)]
pub struct TypedEntityID<T>(pub usize, pub PhantomData<T>);

impl<T> TypedEntityID<T> {
    /// The handle for entity number `value`.
    pub fn new(value: usize) -> (r: Self)
        ensures
            r.0 == value,
    {
        TypedEntityID(value, PhantomData)
    }

    /// The entity number behind the handle.
    pub fn value(&self) -> (r: usize)
        ensures
            r == self.0,
    {
        self.0
    }

    /// The same handle without its type marker.
    pub fn untyped(&self) -> (r: UntypedEntityID)
        ensures
            r.0 == self.0,
    {
        UntypedEntityID(self.0)
    }
}

impl<T> Clone for TypedEntityID<T> {
    fn clone(&self) -> (r: Self)
        ensures
            r.0 == self.0,
    {
        TypedEntityID(self.0, PhantomData)
    }
}

impl<T> Copy for TypedEntityID<T> {}

impl<T> PartialEq for TypedEntityID<T> {
    fn eq(&self, other: &Self) -> (r: bool)
        ensures
            r == (self.0 == other.0),
    {
        self.0 == other.0
    }
}

impl<T> vstd::std_specs::cmp::PartialEqSpecImpl for TypedEntityID<T> {
    open spec fn obeys_eq_spec() -> bool {
        true
    }

    open spec fn eq_spec(&self, other: &Self) -> bool {
        self.0 == other.0
    }
}

impl<T> Eq for TypedEntityID<T> {}

impl UntypedEntityID {
    /// The entity number behind the handle.
    pub fn value(&self) -> (r: usize)
        ensures
            r == self.0,
    {
        self.0
    }
}

impl<T> From<usize> for TypedEntityID<T> {
    fn from(value: usize) -> (r: Self)
        ensures
            r.0 == value,
    {
        TypedEntityID(value, PhantomData)
    }
}

impl<T> vstd::std_specs::convert::FromSpecImpl<usize> for TypedEntityID<T> {
    open spec fn obeys_from_spec() -> bool {
        true
    }

    open spec fn from_spec(v: usize) -> Self {
        TypedEntityID(v, PhantomData)
    }
}

impl From<usize> for UntypedEntityID {
    fn from(value: usize) -> (r: Self)
        ensures
            r.0 == value,
    {
        UntypedEntityID(value)
    }
}

impl vstd::std_specs::convert::FromSpecImpl<usize> for UntypedEntityID {
    open spec fn obeys_from_spec() -> bool {
        true
    }

    open spec fn from_spec(v: usize) -> Self {
        UntypedEntityID(v)
    }
}

impl<T> From<TypedEntityID<T>> for UntypedEntityID {
    fn from(value: TypedEntityID<T>) -> (r: Self)
        ensures
            r.0 == value.0,
    {
        UntypedEntityID(value.0)
    }
}

impl<T> vstd::std_specs::convert::FromSpecImpl<TypedEntityID<T>> for UntypedEntityID {
    open spec fn obeys_from_spec() -> bool {
        true
    }

    open spec fn from_spec(v: TypedEntityID<T>) -> Self {
        UntypedEntityID(v.0)
    }
}

} // verus!
