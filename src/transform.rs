use crate::entity_id::TypedEntityID;
use crate::maths::{Unit, Zero};
use crate::two::{Rotor, Vector};
use vstd::prelude::*;

verus! {

/// A placement in the plane, optionally relative to a parent transform that is
/// itself an entity.
#[derive(Clone, Debug)]
pub struct Transform<T> {
    pub translation: Vector<T>,
    pub rotation: Rotor<T>,
    pub scale: Vector<T>,
    pub parent: Option<TypedEntityID<Transform<T>>>,
}

impl<T: Copy> Transform<T> {
    /// A transform from its parts.
    pub fn new(
        translation: Vector<T>,
        rotation: Rotor<T>,
        scale: Vector<T>,
        parent: Option<TypedEntityID<Self>>,
    ) -> (r: Self)
        ensures
            r.translation == translation,
            r.rotation == rotation,
            r.scale == scale,
            r.parent == parent,
    {
        Transform { translation, rotation, scale, parent }
    }

    /// The entity this transform is relative to, if any.
    pub fn parent(&self) -> (r: Option<TypedEntityID<Self>>)
        ensures
            r == self.parent,
    {
        match &self.parent {
            Some(p) => Some(TypedEntityID::new(p.0)),
            None => None,
        }
    }
}

impl<T: Copy + Zero + Unit> Transform<T> {
    /// No translation, no rotation and unit scale.
    pub fn identity(parent: Option<TypedEntityID<Self>>) -> (r: Self)
        ensures
            r.translation == (Vector { x: T::zero_value(), y: T::zero_value() }),
            r.rotation == (Rotor { real: T::unit_value(), imaginary: T::zero_value() }),
            r.scale == (Vector { x: T::unit_value(), y: T::unit_value() }),
            r.parent == parent,
    {
        Transform {
            translation: Vector { x: T::zero(), y: T::zero() },
            rotation: Rotor { real: T::unit(), imaginary: T::zero() },
            scale: Vector { x: T::unit(), y: T::unit() },
            parent,
        }
    }
}

} // verus!
