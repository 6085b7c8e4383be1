use std::ops::{Add, Mul, Neg, Sub};
use vstd::prelude::*;
use vstd::std_specs::ops::{
    AddSpec, AddSpecImpl, MulSpec, MulSpecImpl, NegSpec, SubSpec, SubSpecImpl,
};

verus! {

/// `+`, `-` and `*` of `T` compute what their specifications say.
pub open spec fn exact_arith<T: Add<Output = T> + Sub<Output = T> + Mul<Output = T>>() -> bool {
    &&& <T as AddSpec>::obeys_add_spec()
    &&& <T as SubSpec>::obeys_sub_spec()
    &&& <T as MulSpec>::obeys_mul_spec()
}

/// `a * b + c * d` can be computed.
pub open spec fn mul_add_req<T: Add<Output = T> + Mul<Output = T>>(a: T, b: T, c: T, d: T) -> bool {
    &&& a.mul_req(b)
    &&& c.mul_req(d)
    &&& a.mul_spec(b).add_req(c.mul_spec(d))
}

/// The value of `a * b + c * d`.
pub open spec fn mul_add<T: Add<Output = T> + Mul<Output = T>>(a: T, b: T, c: T, d: T) -> T {
    a.mul_spec(b).add_spec(c.mul_spec(d))
}

/// `a * b - c * d` can be computed.
pub open spec fn mul_sub_req<T: Sub<Output = T> + Mul<Output = T>>(a: T, b: T, c: T, d: T) -> bool {
    &&& a.mul_req(b)
    &&& c.mul_req(d)
    &&& a.mul_spec(b).sub_req(c.mul_spec(d))
}

/// The value of `a * b - c * d`.
pub open spec fn mul_sub<T: Sub<Output = T> + Mul<Output = T>>(a: T, b: T, c: T, d: T) -> T {
    a.mul_spec(b).sub_spec(c.mul_spec(d))
}

fn mul_add_exec<T: Copy + Add<Output = T> + Sub<Output = T> + Mul<Output = T>>(
    a: T,
    b: T,
    c: T,
    d: T,
) -> (r: T)
    requires
        exact_arith::<T>(),
        mul_add_req(a, b, c, d),
    ensures
        r == mul_add(a, b, c, d),
{
    a * b + c * d
}

fn mul_sub_exec<T: Copy + Add<Output = T> + Sub<Output = T> + Mul<Output = T>>(
    a: T,
    b: T,
    c: T,
    d: T,
) -> (r: T)
    requires
        exact_arith::<T>(),
        mul_sub_req(a, b, c, d),
    ensures
        r == mul_sub(a, b, c, d),
{
    a * b - c * d
}

/// A two-dimensional vector.
#[derive(Clone, Copy, Debug, PartialEq, Eq)]
pub struct Vector<T> {
    pub x: T,
    pub y: T,
}

impl<T: Copy> Vector<T> {
    /// The vector `(x, y)`.
    pub fn new(x: T, y: T) -> (r: Self)
        ensures
            r.x == x,
            r.y == y,
    {
        Vector { x, y }
    }

    /// The vector with both components equal to `value`.
    pub fn fill(value: T) -> (r: Self)
        ensures
            r.x == value,
            r.y == value,
    {
        Vector { x: value, y: value }
    }
}

impl<T: Copy + Add<Output = T> + Sub<Output = T> + Mul<Output = T>> Vector<T> {
    /// The dot product `x * rhs.x + y * rhs.y`.
    pub fn dot(&self, rhs: &Self) -> (r: T)
        requires
            exact_arith::<T>(),
            mul_add_req(self.x, rhs.x, self.y, rhs.y),
        ensures
            r == mul_add(self.x, rhs.x, self.y, rhs.y),
    {
        mul_add_exec(self.x, rhs.x, self.y, rhs.y)
    }
}

impl<T: Add<Output = T>> Add for Vector<T> {
    type Output = Self;

    fn add(self, rhs: Self) -> (r: Self::Output) {
        Vector { x: self.x + rhs.x, y: self.y + rhs.y }
    }
}

impl<T: Add<Output = T>> AddSpecImpl for Vector<T> {
    open spec fn obeys_add_spec() -> bool {
        <T as AddSpec>::obeys_add_spec()
    }

    open spec fn add_req(self, rhs: Self) -> bool {
        self.x.add_req(rhs.x) && self.y.add_req(rhs.y)
    }

    open spec fn add_spec(self, rhs: Self) -> Self {
        Vector { x: self.x.add_spec(rhs.x), y: self.y.add_spec(rhs.y) }
    }
}

impl<T: Sub<Output = T>> Sub for Vector<T> {
    type Output = Self;

    fn sub(self, rhs: Self) -> (r: Self::Output) {
        Vector { x: self.x - rhs.x, y: self.y - rhs.y }
    }
}

impl<T: Sub<Output = T>> SubSpecImpl for Vector<T> {
    open spec fn obeys_sub_spec() -> bool {
        <T as SubSpec>::obeys_sub_spec()
    }

    open spec fn sub_req(self, rhs: Self) -> bool {
        self.x.sub_req(rhs.x) && self.y.sub_req(rhs.y)
    }

    open spec fn sub_spec(self, rhs: Self) -> Self {
        Vector { x: self.x.sub_spec(rhs.x), y: self.y.sub_spec(rhs.y) }
    }
}

/// The geometric product of two vectors: their dot product as the real part and
/// `x * rhs.y + y * rhs.x` as the imaginary part.
impl<T: Copy + Add<Output = T> + Sub<Output = T> + Mul<Output = T>> Mul for Vector<T> {
    type Output = Rotor<T>;

    fn mul(self, rhs: Self) -> (r: Self::Output) {
        Rotor {
            real: mul_add_exec(self.x, rhs.x, self.y, rhs.y),
            imaginary: mul_add_exec(self.x, rhs.y, self.y, rhs.x),
        }
    }
}

impl<T: Copy + Add<Output = T> + Sub<Output = T> + Mul<Output = T>> MulSpecImpl for Vector<T> {
    open spec fn obeys_mul_spec() -> bool {
        true
    }

    open spec fn mul_req(self, rhs: Self) -> bool {
        &&& exact_arith::<T>()
        &&& mul_add_req(self.x, rhs.x, self.y, rhs.y)
        &&& mul_add_req(self.x, rhs.y, self.y, rhs.x)
    }

    open spec fn mul_spec(self, rhs: Self) -> Rotor<T> {
        Rotor {
            real: mul_add(self.x, rhs.x, self.y, rhs.y),
            imaginary: mul_add(self.x, rhs.y, self.y, rhs.x),
        }
    }
}

/// The vector rotated and scaled by a rotor, as by the complex product.
impl<T: Copy + Add<Output = T> + Sub<Output = T> + Mul<Output = T>> Mul<Rotor<T>> for Vector<T> {
    type Output = Self;

    fn mul(self, rhs: Rotor<T>) -> (r: Self::Output) {
        Vector {
            x: mul_sub_exec(self.x, rhs.real, self.y, rhs.imaginary),
            y: mul_add_exec(self.x, rhs.imaginary, self.y, rhs.real),
        }
    }
}

impl<T: Copy + Add<Output = T> + Sub<Output = T> + Mul<Output = T>> MulSpecImpl<Rotor<T>> for Vector<T> {
    open spec fn obeys_mul_spec() -> bool {
        true
    }

    open spec fn mul_req(self, rhs: Rotor<T>) -> bool {
        &&& exact_arith::<T>()
        &&& mul_sub_req(self.x, rhs.real, self.y, rhs.imaginary)
        &&& mul_add_req(self.x, rhs.imaginary, self.y, rhs.real)
    }

    open spec fn mul_spec(self, rhs: Rotor<T>) -> Self {
        Vector {
            x: mul_sub(self.x, rhs.real, self.y, rhs.imaginary),
            y: mul_add(self.x, rhs.imaginary, self.y, rhs.real),
        }
    }
}

/// A rotor of the plane, `real + imaginary * e12`.
#[derive(Clone, Copy, Debug, PartialEq, Eq)]
pub struct Rotor<T> {
    pub real: T,
    pub imaginary: T,
}

impl<T: Copy + Neg<Output = T>> Rotor<T> {
    /// The rotor `re + im * e12`.
    pub fn new(re: T, im: T) -> (r: Self)
        ensures
            r.real == re,
            r.imaginary == im,
    {
        Rotor { real: re, imaginary: im }
    }

    /// The rotation matrix of the rotor, by rows.
    pub fn to_row_matrix(&self) -> (r: RowMat<T>)
        requires
            <T as NegSpec>::obeys_neg_spec(),
            self.imaginary.neg_req(),
        ensures
            r.x == (Vector { x: self.real, y: self.imaginary.neg_spec() }),
            r.y == (Vector { x: self.imaginary, y: self.real }),
    {
        RowMat {
            x: Vector { x: self.real, y: self.imaginary.neg() },
            y: Vector { x: self.imaginary, y: self.real },
        }
    }

    /// The rotation matrix of the rotor, by columns.
    pub fn to_col_matrix(&self) -> (r: ColMat<T>)
        requires
            <T as NegSpec>::obeys_neg_spec(),
            self.imaginary.neg_req(),
        ensures
            r.x == (Vector { x: self.real, y: self.imaginary }),
            r.y == (Vector { x: self.imaginary.neg_spec(), y: self.real }),
    {
        ColMat {
            x: Vector { x: self.real, y: self.imaginary },
            y: Vector { x: self.imaginary.neg(), y: self.real },
        }
    }
}

/// A 2x2 matrix stored by rows.
#[derive(Clone, Copy, Debug, PartialEq, Eq)]
pub struct RowMat<T> {
    pub x: Vector<T>,
    pub y: Vector<T>,
}

/// A 2x2 matrix stored by columns.
#[derive(Clone, Copy, Debug, PartialEq, Eq)]
pub struct ColMat<T> {
    pub x: Vector<T>,
    pub y: Vector<T>,
}

/// Entry `(i, j)` of the product is row `i` of the left side dotted with column
/// `j` of the right side.
impl<T: Copy + Add<Output = T> + Sub<Output = T> + Mul<Output = T>> Mul<ColMat<T>> for RowMat<T> {
    type Output = Self;

    fn mul(self, rhs: ColMat<T>) -> (r: Self::Output) {
        RowMat {
            x: Vector {
                x: mul_add_exec(self.x.x, rhs.x.x, self.x.y, rhs.x.y),
                y: mul_add_exec(self.x.x, rhs.y.x, self.x.y, rhs.y.y),
            },
            y: Vector {
                x: mul_add_exec(self.y.x, rhs.x.x, self.y.y, rhs.x.y),
                y: mul_add_exec(self.y.x, rhs.y.x, self.y.y, rhs.y.y),
            },
        }
    }
}

impl<T: Copy + Add<Output = T> + Sub<Output = T> + Mul<Output = T>> MulSpecImpl<ColMat<T>> for RowMat<T> {
    open spec fn obeys_mul_spec() -> bool {
        true
    }

    open spec fn mul_req(self, rhs: ColMat<T>) -> bool {
        &&& exact_arith::<T>()
        &&& mul_add_req(self.x.x, rhs.x.x, self.x.y, rhs.x.y)
        &&& mul_add_req(self.x.x, rhs.y.x, self.x.y, rhs.y.y)
        &&& mul_add_req(self.y.x, rhs.x.x, self.y.y, rhs.x.y)
        &&& mul_add_req(self.y.x, rhs.y.x, self.y.y, rhs.y.y)
    }

    open spec fn mul_spec(self, rhs: ColMat<T>) -> Self {
        RowMat {
            x: Vector {
                x: mul_add(self.x.x, rhs.x.x, self.x.y, rhs.x.y),
                y: mul_add(self.x.x, rhs.y.x, self.x.y, rhs.y.y),
            },
            y: Vector {
                x: mul_add(self.y.x, rhs.x.x, self.y.y, rhs.x.y),
                y: mul_add(self.y.x, rhs.y.x, self.y.y, rhs.y.y),
            },
        }
    }
}

/// The same matrix, stored by rows.
impl<T> From<ColMat<T>> for RowMat<T> {
    fn from(value: ColMat<T>) -> (r: Self)
        ensures
            r.x == (Vector { x: value.x.x, y: value.y.x }),
            r.y == (Vector { x: value.x.y, y: value.y.y }),
    {
        RowMat { x: Vector { x: value.x.x, y: value.y.x }, y: Vector { x: value.x.y, y: value.y.y } }
    }
}

impl<T> vstd::std_specs::convert::FromSpecImpl<ColMat<T>> for RowMat<T> {
    open spec fn obeys_from_spec() -> bool {
        true
    }

    open spec fn from_spec(value: ColMat<T>) -> Self {
        RowMat { x: Vector { x: value.x.x, y: value.y.x }, y: Vector { x: value.x.y, y: value.y.y } }
    }
}

/// The same matrix, stored by columns.
impl<T> From<RowMat<T>> for ColMat<T> {
    fn from(value: RowMat<T>) -> (r: Self)
        ensures
            r.x == (Vector { x: value.x.x, y: value.y.x }),
            r.y == (Vector { x: value.x.y, y: value.y.y }),
    {
        ColMat { x: Vector { x: value.x.x, y: value.y.x }, y: Vector { x: value.x.y, y: value.y.y } }
    }
}

impl<T> vstd::std_specs::convert::FromSpecImpl<RowMat<T>> for ColMat<T> {
    open spec fn obeys_from_spec() -> bool {
        true
    }

    open spec fn from_spec(value: RowMat<T>) -> Self {
        ColMat { x: Vector { x: value.x.x, y: value.y.x }, y: Vector { x: value.x.y, y: value.y.y } }
    }
}

} // verus!
